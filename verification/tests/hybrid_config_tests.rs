use std::collections::HashMap;

use nyxs_owl::config::{
    validate_strategy_components, CustomConfirmationConfig, CustomFeatureConfig, FeatureEngineeringConfig,
    ForecastingModelConfig, SignalConfirmationConfig, TechnicalIndicatorConfig,
};
use nyxs_owl::error::HybridError;

fn rsi(period: usize, oversold: f64, overbought: f64) -> TechnicalIndicatorConfig {
    TechnicalIndicatorConfig::RSI { period, oversold: oversold.to_bits(), overbought: overbought.to_bits() }
}

fn arima() -> ForecastingModelConfig {
    ForecastingModelConfig::ARIMA {
        auto_order: true,
        ensemble_forecasting: true,
        regime_detection: true,
        outlier_detection: true,
    }
}

fn validation_message(r: Result<(), HybridError>) -> String {
    match r {
        Err(HybridError::Validation(m)) => m,
        other => panic!("expected a validation error, got {:?}", other),
    }
}

#[test]
fn test_technical_indicator_config_validation() {
    // Valid RSI config
    let valid_rsi = rsi(14, 30.0, 70.0);
    assert!(valid_rsi.validate().is_ok());

    // Invalid RSI config (oversold >= overbought)
    let invalid_rsi = rsi(14, 70.0, 30.0);
    assert!(invalid_rsi.validate().is_err());
}

#[test]
fn test_forecasting_model_config_validation() {
    // Valid ARIMA config
    let valid_arima = arima();
    assert!(valid_arima.validate().is_ok());

    // Invalid ensemble config (empty models)
    let invalid_ensemble = ForecastingModelConfig::Ensemble { models: Vec::new(), adaptive_weighting: true };
    assert!(invalid_ensemble.validate().is_err());
}

#[test]
fn technical_indicator_messages() {
    assert_eq!(rsi(0, 30.0, 70.0).validate(), Err("RSI period must be greater than 0".to_string()));
    assert_eq!(rsi(14, 50.0, 50.0).validate(), Err("RSI oversold must be less than overbought".to_string()));
    assert_eq!(rsi(14, -1.0, 70.0).validate(), Err("RSI thresholds must be between 0 and 100".to_string()));
    assert_eq!(rsi(14, 30.0, 100.5).validate(), Err("RSI thresholds must be between 0 and 100".to_string()));
    // a NaN threshold makes every comparison false, so nothing is reported
    assert_eq!(rsi(14, f64::NAN, 70.0).validate(), Ok(()));

    let macd = |f: usize, s: usize, g: usize| TechnicalIndicatorConfig::MACD {
        fast_period: f,
        slow_period: s,
        signal_period: g,
    };
    assert_eq!(macd(12, 26, 9).validate(), Ok(()));
    assert_eq!(macd(12, 26, 0).validate(), Err("MACD periods must be greater than 0".to_string()));
    assert_eq!(macd(26, 26, 9).validate(), Err("MACD fast period must be less than slow period".to_string()));

    let bands = |p: usize, d: f64| TechnicalIndicatorConfig::BollingerBands { period: p, std_dev: d.to_bits() };
    assert_eq!(bands(20, 2.0).validate(), Ok(()));
    assert_eq!(bands(0, 2.0).validate(), Err("Bollinger Bands period must be greater than 0".to_string()));
    assert_eq!(bands(20, -0.0).validate(), Err("Bollinger Bands standard deviation must be positive".to_string()));

    let cci = |p: usize, t: f64| TechnicalIndicatorConfig::CCI { period: p, threshold: t.to_bits() };
    assert_eq!(cci(20, 100.0).validate(), Ok(()));
    assert_eq!(cci(0, 100.0).validate(), Err("CCI period must be greater than 0".to_string()));
    assert_eq!(cci(20, 0.0).validate(), Err("CCI threshold must be positive".to_string()));

    let mfi = |p: usize, lo: f64, hi: f64| TechnicalIndicatorConfig::MFI {
        period: p,
        oversold: lo.to_bits(),
        overbought: hi.to_bits(),
    };
    assert_eq!(mfi(14, 20.0, 80.0).validate(), Ok(()));
    assert_eq!(mfi(0, 20.0, 80.0).validate(), Err("MFI period must be greater than 0".to_string()));
    assert_eq!(mfi(14, 80.0, 20.0).validate(), Err("MFI oversold must be less than overbought".to_string()));
    assert_eq!(mfi(14, 20.0, f64::INFINITY).validate(), Err("MFI thresholds must be between 0 and 100".to_string()));

    assert_eq!(TechnicalIndicatorConfig::ROC { period: 10 }.validate(), Ok(()));
    assert_eq!(
        TechnicalIndicatorConfig::ROC { period: 0 }.validate(),
        Err("ROC period must be greater than 0".to_string())
    );

    let mut params = HashMap::new();
    assert_eq!(
        TechnicalIndicatorConfig::Custom { name: String::new(), parameters: params.clone() }.validate(),
        Err("Custom indicator name cannot be empty".to_string())
    );
    assert_eq!(
        TechnicalIndicatorConfig::Custom { name: "mine".to_string(), parameters: params.clone() }.validate(),
        Err("Custom indicator must have at least one parameter".to_string())
    );
    params.insert("window".to_string(), "5".to_string());
    assert_eq!(TechnicalIndicatorConfig::Custom { name: "mine".to_string(), parameters: params }.validate(), Ok(()));
}

#[test]
fn forecasting_model_messages() {
    let ensemble = |names: &[&str]| ForecastingModelConfig::Ensemble {
        models: names.iter().map(|s| s.to_string()).collect(),
        adaptive_weighting: false,
    };
    assert_eq!(ensemble(&[]).validate(), Err("Ensemble must contain at least one model".to_string()));
    assert_eq!(ensemble(&["arima", ""]).validate(), Err("Ensemble model names cannot be empty".to_string()));
    assert_eq!(ensemble(&["arima", "kalman"]).validate(), Ok(()));

    let es = |a: f64, b: f64, g: f64| ForecastingModelConfig::ExponentialSmoothing {
        alpha: a.to_bits(),
        beta: b.to_bits(),
        gamma: g.to_bits(),
    };
    assert_eq!(es(0.0, 1.0, 0.5).validate(), Ok(()));
    assert_eq!(es(1.5, 0.5, 0.5).validate(), Err("Exponential smoothing alpha must be between 0 and 1".to_string()));
    assert_eq!(es(0.5, -0.1, 0.5).validate(), Err("Exponential smoothing beta must be between 0 and 1".to_string()));
    assert_eq!(
        es(0.5, 0.5, f64::NAN).validate(),
        Err("Exponential smoothing gamma must be between 0 and 1".to_string())
    );

    let mut params = HashMap::new();
    assert_eq!(
        ForecastingModelConfig::Custom { name: String::new(), parameters: params.clone() }.validate(),
        Err("Custom model name cannot be empty".to_string())
    );
    assert_eq!(
        ForecastingModelConfig::Custom { name: "m".to_string(), parameters: params.clone() }.validate(),
        Err("Custom model must have at least one parameter".to_string())
    );
    params.insert("k".to_string(), "v".to_string());
    assert_eq!(ForecastingModelConfig::Custom { name: "m".to_string(), parameters: params }.validate(), Ok(()));
}

fn confirmation(name: &str, weight: f64, threshold: f64) -> CustomConfirmationConfig {
    CustomConfirmationConfig { name: name.to_string(), weight: weight.to_bits(), threshold: threshold.to_bits() }
}

#[test]
fn signal_confirmation_rules() {
    let default = SignalConfirmationConfig::default();
    assert!(default.technical_confirmation && default.multi_timeframe);
    assert!(default.custom_confirmation.is_empty());
    assert_eq!(f64::from_bits(default.min_confirmation_score), 0.7);
    assert!(default.validate().is_ok());

    let mut none_enabled = SignalConfirmationConfig::default();
    none_enabled.technical_confirmation = false;
    none_enabled.forecasting_confirmation = false;
    none_enabled.volume_confirmation = false;
    none_enabled.pattern_confirmation = false;
    none_enabled.multi_timeframe = false;
    assert_eq!(validation_message(none_enabled.validate()), "At least one confirmation method must be enabled");

    let mut bad_score = SignalConfirmationConfig::default();
    bad_score.min_confirmation_score = 1.01f64.to_bits();
    assert_eq!(validation_message(bad_score.validate()), "Minimum confirmation score must be between 0 and 1");

    assert_eq!(confirmation("", 0.5, 0.5).validate(), Err("Custom confirmation name cannot be empty".to_string()));
    assert_eq!(
        confirmation("volume", 2.0, 0.5).validate(),
        Err("Custom confirmation weight must be between 0 and 1".to_string())
    );
    assert_eq!(
        confirmation("volume", 0.5, -0.5).validate(),
        Err("Custom confirmation threshold must be between 0 and 1".to_string())
    );

    let mut custom = SignalConfirmationConfig::default();
    custom.custom_confirmation = vec![confirmation("a", 0.5, 0.5), confirmation("b", 0.5, 7.0), confirmation("", 0.5, 0.5)];
    assert_eq!(
        validation_message(custom.validate()),
        "Custom confirmation 1: Custom confirmation threshold must be between 0 and 1"
    );
}

#[test]
fn strategy_components_checked_in_order() {
    let fe = FeatureEngineeringConfig::default();
    let sc = SignalConfirmationConfig::default();

    assert_eq!(
        validation_message(validate_strategy_components(&vec![], &vec![arima()], &fe, &sc)),
        "At least one technical indicator is required"
    );
    assert_eq!(
        validation_message(validate_strategy_components(&vec![rsi(14, 30.0, 70.0)], &vec![], &fe, &sc)),
        "At least one forecasting model is required"
    );
    assert!(validate_strategy_components(&vec![rsi(14, 30.0, 70.0)], &vec![arima()], &fe, &sc).is_ok());

    let indicators = vec![rsi(14, 30.0, 70.0), TechnicalIndicatorConfig::ROC { period: 10 }, rsi(0, 30.0, 70.0)];
    assert_eq!(
        validation_message(validate_strategy_components(&indicators, &vec![arima()], &fe, &sc)),
        "Technical indicator 2: RSI period must be greater than 0"
    );

    let models = vec![arima(), ForecastingModelConfig::Ensemble { models: vec![], adaptive_weighting: true }];
    assert_eq!(
        validation_message(validate_strategy_components(&vec![rsi(14, 30.0, 70.0)], &models, &fe, &sc)),
        "Forecasting model 1: Ensemble must contain at least one model"
    );

    let mut bad_fe = FeatureEngineeringConfig::default();
    bad_fe.custom_features = vec![CustomFeatureConfig { name: "x".to_string(), calculation: String::new() }];
    assert_eq!(
        validation_message(validate_strategy_components(&vec![rsi(14, 30.0, 70.0)], &vec![arima()], &bad_fe, &sc)),
        "Custom feature 0: Custom feature calculation cannot be empty"
    );

    let mut bad_sc = SignalConfirmationConfig::default();
    bad_sc.min_confirmation_score = (-0.5f64).to_bits();
    assert_eq!(
        validation_message(validate_strategy_components(&vec![rsi(14, 30.0, 70.0)], &vec![arima()], &fe, &bad_sc)),
        "Minimum confirmation score must be between 0 and 1"
    );
}

#[test]
fn default_strategy_components_validate() {
    // the indicators and model of the hybrid strategy's default configuration
    let indicators = vec![
        rsi(14, 30.0, 70.0),
        TechnicalIndicatorConfig::MACD { fast_period: 12, slow_period: 26, signal_period: 9 },
        TechnicalIndicatorConfig::CCI { period: 20, threshold: 100.0f64.to_bits() },
        TechnicalIndicatorConfig::MFI { period: 14, oversold: 20.0f64.to_bits(), overbought: 80.0f64.to_bits() },
        TechnicalIndicatorConfig::ROC { period: 10 },
        TechnicalIndicatorConfig::BollingerBands { period: 20, std_dev: 2.0f64.to_bits() },
    ];
    let models = vec![arima()];
    assert!(validate_strategy_components(
        &indicators,
        &models,
        &FeatureEngineeringConfig::default(),
        &SignalConfirmationConfig::default()
    )
    .is_ok());
}
