use chrono::Utc;

use nyxs_owl::config::TechnicalIndicatorConfig;
use nyxs_owl::metadata::Metadata;
use nyxs_owl::signals::{
    ConfirmedSignal, Feature, FeatureSet, ForecastSignal, HybridSignal, RiskAssessment, TechnicalConfig,
    TechnicalSignal,
};
use nyxs_owl::types::{FeatureType, MarketRegime, RiskLevel, SignalType, Timestamp};

fn now() -> Timestamp {
    let t = Utc::now();
    Timestamp { secs: t.timestamp(), nanos: t.timestamp_subsec_nanos() }
}

fn b(x: f64) -> u64 {
    x.to_bits()
}

fn f(bits: u64) -> f64 {
    f64::from_bits(bits)
}

#[test]
fn test_technical_signal_creation() {
    let timestamp = now();
    let signal = TechnicalSignal::new("RSI".to_string(), b(65.0), SignalType::Buy, b(0.7), b(0.8), timestamp);

    assert_eq!(signal.indicator_name, "RSI");
    assert_eq!(f(signal.value), 65.0);
    assert_eq!(signal.signal_type, SignalType::Buy);
    assert_eq!(f(signal.strength), 0.7);
    assert_eq!(f(signal.confidence), 0.8);
}

#[test]
fn test_forecast_signal_creation() {
    let timestamp = now();
    let signal = ForecastSignal::new("ARIMA".to_string(), b(105.0), b(0.9), MarketRegime::Trending, 5, timestamp);

    assert_eq!(signal.model_name, "ARIMA");
    assert_eq!(f(signal.forecast), 105.0);
    assert_eq!(f(signal.confidence), 0.9);
    assert_eq!(signal.regime, MarketRegime::Trending);
    assert_eq!(signal.horizon, 5);
}

#[test]
fn test_hybrid_signal_creation() {
    let timestamp = now();
    let signal = HybridSignal::new(SignalType::Buy, b(0.8), b(0.85), b(0.8), b(0.9), b(0.82), timestamp, b(100.0));

    assert_eq!(signal.signal_type, SignalType::Buy);
    assert_eq!(f(signal.strength), 0.8);
    assert_eq!(f(signal.confidence), 0.85);
    assert_eq!(f(signal.technical_confidence), 0.8);
    assert_eq!(f(signal.forecast_confidence), 0.9);
    assert_eq!(f(signal.confirmation_score), 0.82);
    assert_eq!(f(signal.price), 100.0);
}

#[test]
fn test_feature_set_operations() {
    let timestamp = now();
    let mut feature_set = FeatureSet::new(Vec::new(), timestamp);

    let feature1 = Feature::new("rsi".to_string(), b(65.0), FeatureType::Momentum, timestamp);
    let feature2 = Feature::new("macd".to_string(), b(0.5), FeatureType::Momentum, timestamp);

    feature_set.add_feature(feature1);
    feature_set.add_feature(feature2);

    assert_eq!(feature_set.features.len(), 2);
    assert_eq!(feature_set.get_value("rsi").map(f), Some(65.0));
    assert_eq!(feature_set.get_value("macd").map(f), Some(0.5));
    assert_eq!(feature_set.get_value("nonexistent"), None);
}

#[test]
fn feature_set_lookup_takes_first_and_lists_in_order() {
    let ts = Timestamp { secs: 1_700_000_000, nanos: 5 };
    let mut set = FeatureSet::new(vec![Feature::new("a".to_string(), b(1.0), FeatureType::Trend, ts)], ts);
    set.extend(vec![
        Feature::new("b".to_string(), b(2.0), FeatureType::Volume, ts),
        Feature::new("a".to_string(), b(3.0), FeatureType::Derived, ts),
    ]);
    assert_eq!(set.feature_names(), vec!["a".to_string(), "b".to_string(), "a".to_string()]);
    assert_eq!(set.feature_values().into_iter().map(f).collect::<Vec<_>>(), vec![1.0, 2.0, 3.0]);
    assert_eq!(set.get_value("a").map(f), Some(1.0));
    assert!(matches!(set.get_feature("a").unwrap().feature_type, FeatureType::Trend));
    assert!(set.get_feature("c").is_none());
    let set = set.with_metadata("window".to_string(), b(14.0)).with_metadata("window".to_string(), b(20.0));
    assert_eq!(set.metadata.get("window").map(f), Some(20.0));
    assert_eq!(set.metadata.get("other"), None);
    assert_eq!(set.timestamp, ts);
}

#[test]
fn metadata_keeps_last_value_per_name() {
    let mut m = Metadata::new();
    assert_eq!(m.get("x"), None);
    m.insert("x".to_string(), b(1.0));
    m.insert("y".to_string(), b(2.0));
    m.insert("x".to_string(), b(3.0));
    assert_eq!(m.get("x").map(f), Some(3.0));
    assert_eq!(m.get("y").map(f), Some(2.0));
    let c = m.clone();
    assert_eq!(c.get("x").map(f), Some(3.0));
}

#[test]
fn hybrid_signal_actionability_and_direction() {
    let ts = now();
    let sell = HybridSignal::new(SignalType::Sell, b(-0.6), b(0.7), b(0.7), b(0.7), b(0.7), ts, b(10.0));
    assert!(sell.is_actionable(b(0.7), b(0.5)));
    assert!(!sell.is_actionable(b(0.71), b(0.5)));
    assert!(!sell.is_actionable(b(0.5), b(0.61)));
    assert!(!sell.is_actionable(b(f64::NAN), b(0.0)));
    assert_eq!(sell.direction(), "SELL");
    let buy = HybridSignal::new(SignalType::Buy, b(0.1), b(0.1), b(0.0), b(0.0), b(0.0), ts, b(1.0));
    assert_eq!(buy.direction(), "BUY");
    let hold = HybridSignal::new(SignalType::Hold, b(0.0), b(0.0), b(0.0), b(0.0), b(0.0), ts, b(1.0));
    assert_eq!(hold.direction(), "HOLD");

    let tech = TechnicalSignal::new("RSI".to_string(), b(25.0), SignalType::Buy, b(0.5), b(0.6), ts)
        .with_metadata("period".to_string(), b(14.0));
    let forecast = ForecastSignal::new("ARIMA".to_string(), b(11.0), b(0.8), MarketRegime::Ranging, 1, ts);
    let combined = buy
        .with_technical_signals(vec![tech])
        .with_forecast_signals(vec![forecast])
        .with_features(vec![Feature::new("rsi".to_string(), b(25.0), FeatureType::Momentum, ts)])
        .with_metadata("score".to_string(), b(0.3));
    assert_eq!(combined.technical_signals.len(), 1);
    assert_eq!(combined.technical_signals[0].metadata.get("period").map(f), Some(14.0));
    assert_eq!(combined.forecast_signals[0].horizon, 1);
    assert_eq!(combined.features[0].name, "rsi");
    assert_eq!(combined.metadata.get("score").map(f), Some(0.3));
}

#[test]
fn confirmed_signal_overrides_confidence_and_score() {
    let ts = now();
    let original = HybridSignal::new(SignalType::Buy, b(0.8), b(0.5), b(0.6), b(0.7), b(0.4), ts, b(100.0));
    let confirmed = ConfirmedSignal {
        original_signal: original,
        confirmation_score: b(0.9),
        component_scores: Metadata::new(),
        risk_assessment: RiskAssessment {
            risk_level: RiskLevel::Low,
            max_drawdown_risk: b(0.1),
            volatility_risk: b(0.2),
            liquidity_risk: b(0.05),
            additional_risks: Metadata::new(),
        },
        confidence: b(0.95),
    };
    let signal = HybridSignal::from(confirmed);
    assert_eq!(f(signal.confidence), 0.95);
    assert_eq!(f(signal.confirmation_score), 0.9);
    assert_eq!(f(signal.strength), 0.8);
    assert_eq!(f(signal.technical_confidence), 0.6);
    assert_eq!(f(signal.price), 100.0);
}

#[test]
fn technical_config_takes_last_period_of_each_kind() {
    let d = TechnicalConfig::default();
    assert_eq!((d.rsi_period, d.cci_period, d.mfi_period, d.roc_period), (14, 20, 14, 10));
    assert_eq!(f(d.bollinger_std_dev), 2.0);

    let configs = vec![
        TechnicalIndicatorConfig::RSI { period: 7, oversold: b(30.0), overbought: b(70.0) },
        TechnicalIndicatorConfig::ROC { period: 3 },
        TechnicalIndicatorConfig::MACD { fast_period: 1, slow_period: 2, signal_period: 3 },
        TechnicalIndicatorConfig::RSI { period: 21, oversold: b(30.0), overbought: b(70.0) },
        TechnicalIndicatorConfig::BollingerBands { period: 50, std_dev: b(3.0) },
    ];
    let c = TechnicalConfig::from_indicators(&configs);
    assert_eq!((c.rsi_period, c.cci_period, c.mfi_period, c.roc_period), (21, 20, 14, 3));
    assert_eq!((c.bollinger_period, f(c.bollinger_std_dev), c.sma_long_period, c.vwap_period), (20, 2.0, 20, 14));
}
