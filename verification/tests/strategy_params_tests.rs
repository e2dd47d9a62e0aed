use nyxs_owl::arima_config::ArimaStrategyConfig;
use nyxs_owl::ensemble::{best_model_aggregation, common_signal_length, majority_vote_aggregation, EnsembleModelConfig};
use nyxs_owl::copula::{CopulaStrategyConfig, CopulaStrategyType, CopulaType};
use nyxs_owl::garch::{GarchStrategyConfig, GarchType};
use nyxs_owl::kalman::KalmanStrategyConfig;
use nyxs_owl::regime::{apply_higher_order_smoothing, MarketRegime, RegimeStrategy, RegimeSwitchingConfig, RegimeSwitchingType};
use nyxs_owl::smoothing::ExponentialSmoothingConfig;
use nyxs_owl::types::{NyxsOwlError, Signal};

fn b(x: f64) -> u64 {
    x.to_bits()
}

fn f(bits: u64) -> f64 {
    f64::from_bits(bits)
}

fn invalid_message<T: std::fmt::Debug>(r: Result<T, NyxsOwlError>) -> String {
    match r {
        Err(NyxsOwlError::InvalidParameter(m)) => m,
        other => panic!("expected an invalid parameter error, got {:?}", other),
    }
}

#[test]
fn test_exponential_smoothing_config_validation() {
    // Valid configuration
    let config = ExponentialSmoothingConfig::new(b(0.3), Some(b(0.1)), None, None, 1, b(0.02), 20, 50);
    assert!(config.is_ok());

    // Invalid alpha
    let config = ExponentialSmoothingConfig::new(b(1.5), Some(b(0.1)), None, None, 1, b(0.02), 20, 50);
    assert!(config.is_err());

    // Invalid beta
    let config = ExponentialSmoothingConfig::new(b(0.3), Some(b(1.5)), None, None, 1, b(0.02), 20, 50);
    assert!(config.is_err());

    // Invalid seasonal periods
    let config = ExponentialSmoothingConfig::new(b(0.3), Some(b(0.1)), Some(b(0.1)), Some(1), 1, b(0.02), 20, 50);
    assert!(config.is_err());
}

#[test]
fn test_exponential_smoothing_preset_configs() {
    // Test conservative config
    let conservative = ExponentialSmoothingConfig::conservative();
    assert_eq!(f(conservative.alpha), 0.1);
    assert_eq!(f(conservative.threshold), 0.03);

    // Test moderate config
    let moderate = ExponentialSmoothingConfig::moderate();
    assert_eq!(f(moderate.alpha), 0.3);
    assert!(moderate.beta.is_some());

    // Test aggressive config
    let aggressive = ExponentialSmoothingConfig::aggressive();
    assert_eq!(f(aggressive.alpha), 0.5);
    assert_eq!(f(aggressive.threshold), 0.015);

    // Test seasonal config
    let seasonal = ExponentialSmoothingConfig::seasonal(12);
    assert!(seasonal.is_ok());
    let seasonal = seasonal.unwrap();
    assert!(seasonal.gamma.is_some());
    assert_eq!(seasonal.seasonal_periods, Some(12));
}

#[test]
fn exponential_smoothing_messages() {
    let new = |a: f64, g: Option<f64>, sp: Option<usize>, h: usize, t: f64, m: usize, w: usize| {
        ExponentialSmoothingConfig::new(b(a), Some(b(0.1)), g.map(b), sp, h, b(t), m, w)
    };
    assert_eq!(invalid_message(new(-0.1, None, None, 1, 0.02, 20, 50)), "Alpha must be between 0.0 and 1.0");
    assert_eq!(invalid_message(new(0.3, Some(1.1), None, 1, 0.02, 20, 50)), "Gamma must be between 0.0 and 1.0");
    assert_eq!(invalid_message(new(0.3, None, Some(1), 1, 0.02, 20, 50)), "Seasonal periods must be at least 2");
    assert_eq!(invalid_message(new(0.3, None, None, 0, 0.02, 20, 50)), "Forecast horizon must be greater than 0");
    assert_eq!(invalid_message(new(0.3, None, None, 1, -0.01, 20, 50)), "Threshold must be non-negative");
    assert_eq!(invalid_message(new(0.3, None, None, 1, 0.02, 9, 50)), "Minimum data points must be at least 10");
    assert_eq!(
        invalid_message(new(0.3, None, None, 1, 0.02, 20, 19)),
        "Window size must be at least as large as minimum data points"
    );
    assert_eq!(
        invalid_message(ExponentialSmoothingConfig::new(b(0.3), Some(b(2.0)), None, None, 1, b(0.02), 20, 50)),
        "Beta must be between 0.0 and 1.0"
    );
    // a zero threshold is accepted, and so is a window equal to the minimum
    let c = new(0.3, None, None, 1, 0.0, 20, 20).unwrap();
    assert_eq!((c.min_data_points, c.window_size), (20, 20));

    // three seasons of two or three periods fall short of ten data points
    assert_eq!(invalid_message(ExponentialSmoothingConfig::seasonal(3)), "Minimum data points must be at least 10");
    assert_eq!(invalid_message(ExponentialSmoothingConfig::seasonal(1)), "Seasonal periods must be at least 2");
    let s = ExponentialSmoothingConfig::seasonal(4).unwrap();
    assert_eq!((s.min_data_points, s.window_size), (12, 20));
    assert_eq!((f(s.alpha), s.beta.map(f), s.gamma.map(f)), (0.3, Some(0.1), Some(0.1)));

    let d = ExponentialSmoothingConfig::default();
    assert_eq!((f(d.alpha), d.beta.map(f), d.gamma, d.min_data_points, d.window_size), (0.3, Some(0.1), None, 20, 50));
}

#[test]
fn test_kalman_strategy_config_validation() {
    // Valid configuration
    let config = KalmanStrategyConfig::new(b(0.01), b(0.1), b(1.0), b(0.02), 50);
    assert!(config.is_ok());

    // Invalid process noise
    let config = KalmanStrategyConfig::new(b(-0.01), b(0.1), b(1.0), b(0.02), 50);
    assert!(config.is_err());

    // Invalid observation noise
    let config = KalmanStrategyConfig::new(b(0.01), b(-0.1), b(1.0), b(0.02), 50);
    assert!(config.is_err());

    // Invalid initial uncertainty
    let config = KalmanStrategyConfig::new(b(0.01), b(0.1), b(-1.0), b(0.02), 50);
    assert!(config.is_err());

    // Invalid signal threshold
    let config = KalmanStrategyConfig::new(b(0.01), b(0.1), b(1.0), b(1.5), 50);
    assert!(config.is_err());

    // Invalid min data points
    let config = KalmanStrategyConfig::new(b(0.01), b(0.1), b(1.0), b(0.02), 5);
    assert!(config.is_err());
}

#[test]
fn kalman_strategy_test_preset_configurations() {
    let conservative = KalmanStrategyConfig::conservative();
    assert_eq!(f(conservative.signal_threshold), 0.02);
    assert_eq!(conservative.min_data_points, 100);

    let aggressive = KalmanStrategyConfig::aggressive();
    assert_eq!(f(aggressive.signal_threshold), 0.005);
    assert_eq!(aggressive.min_data_points, 30);

    let trend_focused = KalmanStrategyConfig::trend_focused();
    assert_eq!(f(trend_focused.signal_threshold), 0.015);
    assert!(trend_focused.use_trend_detection);
}

#[test]
fn kalman_messages_and_defaults() {
    assert_eq!(
        invalid_message(KalmanStrategyConfig::new(b(0.0), b(0.1), b(1.0), b(0.02), 50)),
        "Process noise must be positive"
    );
    assert_eq!(
        invalid_message(KalmanStrategyConfig::new(b(0.01), b(0.0), b(1.0), b(0.02), 50)),
        "Observation noise must be positive"
    );
    assert_eq!(
        invalid_message(KalmanStrategyConfig::new(b(0.01), b(0.1), b(0.0), b(0.02), 50)),
        "Initial uncertainty must be positive"
    );
    assert_eq!(
        invalid_message(KalmanStrategyConfig::new(b(0.01), b(0.1), b(1.0), b(0.0), 50)),
        "Signal threshold must be between 0 and 1"
    );
    assert_eq!(
        invalid_message(KalmanStrategyConfig::new(b(0.01), b(0.1), b(1.0), b(0.02), 9)),
        "Minimum data points must be at least 10"
    );
    // a threshold of exactly one is accepted
    let c = KalmanStrategyConfig::new(b(0.01), b(0.1), b(1.0), b(1.0), 10).unwrap();
    assert!(c.use_trend_detection);
    assert_eq!((c.trend_lookback, f(c.innovation_threshold)), (10, 2.0));

    let d = KalmanStrategyConfig::default();
    assert_eq!((f(d.process_noise), f(d.observation_noise), d.min_data_points), (0.01, 0.1, 50));
}

#[test]
fn test_garch_strategy_config_validation() {
    // Valid configuration
    let config = GarchStrategyConfig::new(GarchType::Standard, 1, 1, b(1.5), b(0.02), 100);
    assert!(config.is_ok());

    // Invalid GARCH order
    let config = GarchStrategyConfig::new(GarchType::Standard, 0, 1, b(1.5), b(0.02), 100);
    assert!(config.is_err());

    // Invalid ARCH order
    let config = GarchStrategyConfig::new(GarchType::Standard, 1, 0, b(1.5), b(0.02), 100);
    assert!(config.is_err());

    // Invalid volatility threshold
    let config = GarchStrategyConfig::new(GarchType::Standard, 1, 1, b(-1.0), b(0.02), 100);
    assert!(config.is_err());

    // Invalid signal threshold
    let config = GarchStrategyConfig::new(GarchType::Standard, 1, 1, b(1.5), b(1.5), 100);
    assert!(config.is_err());

    // Invalid min data points
    let config = GarchStrategyConfig::new(GarchType::Standard, 1, 1, b(1.5), b(0.02), 30);
    assert!(config.is_err());
}

#[test]
fn garch_strategy_test_preset_configurations() {
    let conservative = GarchStrategyConfig::conservative();
    assert_eq!(f(conservative.volatility_threshold), 2.0);
    assert_eq!(f(conservative.target_volatility), 0.15);

    let aggressive = GarchStrategyConfig::aggressive();
    assert!(matches!(aggressive.model_type, GarchType::GjrGarch));
    assert_eq!(aggressive.garch_order, 2);

    let vol_trading = GarchStrategyConfig::volatility_trading();
    assert!(matches!(vol_trading.model_type, GarchType::Egarch));
    assert!(!vol_trading.use_volatility_targeting);
}

#[test]
fn garch_messages_and_defaults() {
    let new = |p: usize, q: usize, v: f64, s: f64, m: usize| GarchStrategyConfig::new(GarchType::GarchM, p, q, b(v), b(s), m);
    assert_eq!(invalid_message(new(6, 1, 1.5, 0.02, 100)), "GARCH order must be between 1 and 5");
    assert_eq!(invalid_message(new(5, 6, 1.5, 0.02, 100)), "ARCH order must be between 1 and 5");
    assert_eq!(invalid_message(new(5, 5, 0.0, 0.02, 100)), "Volatility threshold must be positive");
    assert_eq!(invalid_message(new(5, 5, 1.5, -0.02, 100)), "Signal threshold must be between 0 and 1");
    assert_eq!(invalid_message(new(5, 5, 1.5, 0.02, 49)), "Minimum data points must be at least 50");
    let c = new(5, 5, 1.5, 1.0, 50).unwrap();
    assert_eq!(c.model_type, GarchType::GarchM);
    assert_eq!((c.volatility_window, c.use_volatility_targeting, f(c.target_volatility), f(c.risk_adjustment)), (30, true, 0.2, 1.0));

    let d = GarchStrategyConfig::default();
    assert_eq!((d.model_type, f(d.volatility_threshold), d.min_data_points), (GarchType::Standard, 1.5, 100));
}

fn pair(a: &str, c: &str) -> (String, String) {
    (a.to_string(), c.to_string())
}

#[test]
fn test_copula_strategy_config_validation() {
    // Valid configuration
    let config = CopulaStrategyConfig::new(
        CopulaType::Gaussian,
        CopulaStrategyType::PairsTrading,
        vec![("A".to_string(), "B".to_string())],
        b(0.7),
        b(0.02),
    );
    assert!(config.is_ok());

    // Empty asset pairs
    let config = CopulaStrategyConfig::new(CopulaType::Gaussian, CopulaStrategyType::PairsTrading, vec![], b(0.7), b(0.02));
    assert!(config.is_err());

    // Invalid correlation threshold
    let config = CopulaStrategyConfig::new(
        CopulaType::Gaussian,
        CopulaStrategyType::PairsTrading,
        vec![("A".to_string(), "B".to_string())],
        b(1.5),
        b(0.02),
    );
    assert!(config.is_err());

    // Invalid Student-t degrees of freedom
    let config = CopulaStrategyConfig::new(
        CopulaType::StudentT(b(-1.0)),
        CopulaStrategyType::PairsTrading,
        vec![("A".to_string(), "B".to_string())],
        b(0.7),
        b(0.02),
    );
    assert!(config.is_err());
}

#[test]
fn copula_strategy_test_preset_configurations() {
    let pairs_config = CopulaStrategyConfig::pairs_trading("AAPL", "MSFT");
    assert!(matches!(pairs_config.strategy_type, CopulaStrategyType::PairsTrading));
    assert_eq!(pairs_config.asset_pairs.len(), 1);

    let stat_arb_config = CopulaStrategyConfig::statistical_arbitrage(vec![("A".to_string(), "B".to_string())]);
    assert!(matches!(stat_arb_config.strategy_type, CopulaStrategyType::StatisticalArbitrage));

    let portfolio_config =
        CopulaStrategyConfig::portfolio_optimization(vec!["A".to_string(), "B".to_string(), "C".to_string()]);
    assert!(matches!(portfolio_config.strategy_type, CopulaStrategyType::PortfolioOptimization));
    assert_eq!(portfolio_config.asset_pairs.len(), 3); // 3 choose 2 = 3 pairs

    let risk_config = CopulaStrategyConfig::risk_management(vec![("A".to_string(), "B".to_string())]);
    assert!(matches!(risk_config.strategy_type, CopulaStrategyType::RiskManagement));
}

#[test]
fn copula_messages_pairs_and_defaults() {
    let one = || vec![pair("A", "B")];
    let new = |t: CopulaType, c: f64, s: f64| CopulaStrategyConfig::new(t, CopulaStrategyType::RiskManagement, one(), b(c), b(s));
    assert_eq!(
        invalid_message(CopulaStrategyConfig::new(CopulaType::Gaussian, CopulaStrategyType::PairsTrading, vec![], b(0.7), b(0.02))),
        "At least one asset pair must be specified"
    );
    assert_eq!(invalid_message(new(CopulaType::Gaussian, -0.1, 0.02)), "Correlation threshold must be between 0 and 1");
    assert_eq!(invalid_message(new(CopulaType::Gaussian, 0.7, 1.5)), "Signal threshold must be between 0 and 1");
    assert_eq!(invalid_message(new(CopulaType::StudentT(b(0.0)), 0.7, 0.02)), "Student-t degrees of freedom must be positive");
    assert_eq!(invalid_message(new(CopulaType::Clayton(b(-2.0)), 0.7, 0.02)), "Clayton alpha parameter must be positive");
    assert_eq!(invalid_message(new(CopulaType::Gumbel(b(0.99)), 0.7, 0.02)), "Gumbel alpha parameter must be >= 1");
    assert!(new(CopulaType::Gumbel(b(1.0)), 0.0, 1.0).is_ok());
    assert!(new(CopulaType::Frank(b(-3.0)), 1.0, 0.5).is_ok());

    let c = new(CopulaType::StudentT(b(4.0)), 0.7, 0.02).unwrap();
    assert_eq!(c.asset_pairs, one());
    assert_eq!((c.lookback_window, c.min_data_points, c.rolling_window), (60, 100, 30));
    assert_eq!((f(c.confidence_level), f(c.risk_adjustment)), (0.95, 1.0));

    let p = CopulaStrategyConfig::portfolio_optimization(vec!["A".to_string(), "B".to_string(), "C".to_string(), "D".to_string()]);
    assert_eq!(
        p.asset_pairs,
        vec![pair("A", "B"), pair("A", "C"), pair("A", "D"), pair("B", "C"), pair("B", "D"), pair("C", "D")]
    );
    assert!(CopulaStrategyConfig::portfolio_optimization(vec!["A".to_string()]).asset_pairs.is_empty());
    assert!(CopulaStrategyConfig::portfolio_optimization(vec![]).asset_pairs.is_empty());

    let t = CopulaStrategyConfig::pairs_trading("AAPL", "MSFT");
    assert_eq!(t.asset_pairs, vec![pair("AAPL", "MSFT")]);
    assert_eq!((f(t.correlation_threshold), f(t.signal_threshold), t.lookback_window), (0.8, 0.015, 90));

    let r = CopulaStrategyConfig::risk_management(one());
    assert_eq!(r.copula_type, CopulaType::Clayton(b(2.0)));
    let s = CopulaStrategyConfig::statistical_arbitrage(one());
    assert_eq!(s.copula_type, CopulaType::StudentT(b(5.0)));

    let d = CopulaStrategyConfig::default();
    assert_eq!(d.asset_pairs, vec![pair("ASSET1", "ASSET2")]);
    assert_eq!((d.lookback_window, f(d.correlation_threshold)), (60, 0.7));
}

#[test]
fn test_regime_switching_config_validation() {
    // Valid configuration
    let config = RegimeSwitchingConfig::new(RegimeSwitchingType::MarkovSwitching, 3, 60, b(0.02), b(0.001));
    assert!(config.is_ok());

    // Invalid number of regimes
    let config = RegimeSwitchingConfig::new(RegimeSwitchingType::MarkovSwitching, 1, 60, b(0.02), b(0.001));
    assert!(config.is_err());

    // Invalid regime window
    let config = RegimeSwitchingConfig::new(RegimeSwitchingType::MarkovSwitching, 3, 10, b(0.02), b(0.001));
    assert!(config.is_err());

    // Invalid higher-order parameter
    let config = RegimeSwitchingConfig::new(RegimeSwitchingType::HigherOrder(0), 3, 60, b(0.02), b(0.001));
    assert!(config.is_err());
}

#[test]
fn regime_switching_strategy_test_preset_configurations() {
    let bull_bear = RegimeSwitchingConfig::bull_bear_market();
    assert_eq!(bull_bear.num_regimes, 2);
    assert_eq!(bull_bear.regime_strategies.len(), 2);

    let vol_regimes = RegimeSwitchingConfig::volatility_regimes();
    assert!(matches!(vol_regimes.model_type, RegimeSwitchingType::Threshold));

    let crisis = RegimeSwitchingConfig::crisis_detection();
    assert!(matches!(crisis.model_type, RegimeSwitchingType::DurationDependent));
    assert_eq!(crisis.regime_strategies.len(), 3);
}

#[test]
fn regime_messages_names_and_defaults() {
    let new = |t: RegimeSwitchingType, n: usize, w: usize, v: f64, r: f64| RegimeSwitchingConfig::new(t, n, w, b(v), b(r));
    let m = RegimeSwitchingType::MarkovSwitching;
    assert_eq!(invalid_message(new(m, 7, 60, 0.02, 0.001)), "Number of regimes must be between 2 and 6");
    assert_eq!(invalid_message(new(m, 6, 19, 0.02, 0.001)), "Regime window must be at least 20");
    assert_eq!(invalid_message(new(m, 6, 20, -0.02, 0.001)), "Volatility threshold must be positive");
    assert_eq!(invalid_message(new(m, 6, 20, 0.02, 0.0)), "Return threshold must be positive");
    assert_eq!(
        invalid_message(new(RegimeSwitchingType::HigherOrder(6), 2, 20, 0.02, 0.001)),
        "Higher-order must be between 1 and 5"
    );
    let c = new(RegimeSwitchingType::HigherOrder(5), 2, 20, 0.02, 0.001).unwrap();
    assert_eq!((c.min_regime_duration, c.min_data_points, c.regime_strategies.len()), (5, 100, 0));
    assert_eq!((f(c.regime_confidence), f(c.smoothing_factor)), (0.7, 0.1));

    assert_eq!(MarketRegime::Bull.as_str(), "Bull");
    assert_eq!(MarketRegime::HighVolatility.as_str(), "HighVolatility");
    assert_eq!(MarketRegime::Crisis.as_str(), "Crisis");

    let d = RegimeSwitchingConfig::default();
    let regimes: Vec<MarketRegime> = d.regime_strategies.iter().map(|s| s.regime).collect();
    assert_eq!(regimes, vec![MarketRegime::Bull, MarketRegime::Bear, MarketRegime::Sideways]);
    assert_eq!(f(d.regime_strategies[2].signal_threshold), 0.025);

    let rs = RegimeStrategy::default();
    assert_eq!((rs.regime, f(rs.signal_threshold), rs.use_trend_following, rs.use_mean_reversion), (MarketRegime::Sideways, 0.02, true, false));

    let crisis = RegimeSwitchingConfig::crisis_detection();
    assert_eq!(crisis.regime_strategies[2].regime, MarketRegime::Crisis);
    assert_eq!(f(crisis.regime_strategies[2].risk_factor), 3.0);
}

#[test]
fn arima_config_presets_follow_cpu_count() {
    let d = ArimaStrategyConfig::default_for_cpus(2);
    assert_eq!((d.p, d.d, d.q, d.min_data_points, d.max_concurrent_forecasts), (2, 1, 2, 120, 4));
    assert_eq!((f(d.threshold), f(d.forecast_confidence), f(d.outlier_threshold)), (0.01, 0.85, 2.5));
    assert_eq!(ArimaStrategyConfig::default_for_cpus(16).max_concurrent_forecasts, 16);

    let h = ArimaStrategyConfig::high_frequency_for_cpus(3);
    assert_eq!((h.p, h.d, h.q, h.max_concurrent_forecasts, h.forecast_timeout_secs), (1, 0, 1, 6, 5));
    assert!(!h.model_selection && !h.parallel_ensemble);
    assert_eq!(f(h.volatility_multiplier), 3.0);

    let c = ArimaStrategyConfig::conservative_for_cpus(8);
    assert_eq!((c.p, c.q, c.max_concurrent_forecasts, c.refit_frequency), (3, 3, 4, 100));
    assert_eq!(ArimaStrategyConfig::conservative_for_cpus(1).max_concurrent_forecasts, 1);
    assert_eq!(f(c.confidence_level), 0.99);

    let cpus = num_cpus::get();
    assert_eq!(ArimaStrategyConfig::default().max_concurrent_forecasts, cpus.max(4));
    assert_eq!(ArimaStrategyConfig::high_frequency().max_concurrent_forecasts, cpus * 2);
    assert_eq!(ArimaStrategyConfig::conservative().max_concurrent_forecasts, cpus.min(4));
}

#[test]
fn ensemble_models_default_to_all_three() {
    let m = EnsembleModelConfig::default();
    assert!(m.use_arima && m.use_exponential_smoothing && m.use_kalman);
    assert_eq!(m.arima_config.min_data_points, 120);
    assert_eq!(f(m.exponential_smoothing_config.alpha), 0.3);
    assert_eq!(m.kalman_config.min_data_points, 50);
}

#[test]
fn candidate_orders_sorted_distinct_and_limited() {
    let mut c = ArimaStrategyConfig::default_for_cpus(4);
    c.ensemble_models = 3;
    assert_eq!(c.generate_candidate_orders((2, 1, 2)), vec![(0, 1, 1), (1, 1, 0), (1, 1, 1)]);
    c.ensemble_models = 100;
    assert_eq!(
        c.generate_candidate_orders((2, 1, 2)),
        vec![(0, 1, 1), (1, 1, 0), (1, 1, 1), (1, 1, 2), (2, 1, 1), (2, 1, 2), (2, 1, 3), (3, 1, 2)]
    );
    // no neighbour below zero or above the maxima
    c.max_p = 0;
    c.max_q = 0;
    assert_eq!(
        c.generate_candidate_orders((0, 0, 0)),
        vec![(0, 0, 0), (0, 1, 1), (1, 1, 0), (1, 1, 1), (1, 1, 2), (2, 1, 1), (2, 1, 2)]
    );
    c.ensemble_models = 0;
    assert!(c.generate_candidate_orders((4, 2, 4)).is_empty());
}

#[test]
fn majority_vote_over_model_series() {
    let series = vec![vec![Signal::Buy, Signal::Sell, Signal::Hold, Signal::Buy], vec![Signal::Buy, Signal::Sell, Signal::Sell, Signal::Sell], vec![Signal::Hold, Signal::Buy, Signal::Buy, Signal::Sell]];
    assert_eq!(common_signal_length(&series), Ok(4));
    let mut out = vec![Signal::Hold; 4];
    majority_vote_aggregation(&series, &mut out);
    // position 2 is a three-way tie, so it holds
    assert_eq!(out, vec![Signal::Buy, Signal::Sell, Signal::Hold, Signal::Sell]);

    // the order of the series does not matter
    let mut reordered = series.clone();
    reordered.reverse();
    let mut out2 = vec![Signal::Hold; 4];
    majority_vote_aggregation(&reordered, &mut out2);
    assert_eq!(out2, out);

    // a two-way tie holds as well
    let tie = vec![vec![Signal::Buy], vec![Signal::Sell]];
    let mut out3 = vec![Signal::Buy];
    majority_vote_aggregation(&tie, &mut out3);
    assert_eq!(out3, vec![Signal::Hold]);

    let none: Vec<Vec<Signal>> = vec![];
    assert!(matches!(common_signal_length(&none), Err(NyxsOwlError::DataError(m)) if m == "No signals to aggregate"));
    let ragged = vec![vec![Signal::Buy, Signal::Buy], vec![Signal::Sell]];
    assert!(matches!(
        common_signal_length(&ragged),
        Err(NyxsOwlError::DataError(m)) if m == "All model signals must have the same length"
    ));
}

#[test]
fn best_model_rotates_through_models() {
    let series = vec![
        vec![Signal::Buy, Signal::Buy, Signal::Buy, Signal::Buy],
        vec![Signal::Sell, Signal::Sell, Signal::Sell, Signal::Sell],
        vec![Signal::Hold, Signal::Hold, Signal::Hold, Signal::Hold],
    ];
    let mut out = vec![Signal::Hold; 4];
    best_model_aggregation(&series, &mut out);
    assert_eq!(out, vec![Signal::Buy, Signal::Sell, Signal::Hold, Signal::Buy]);
    let mut empty: Vec<Signal> = vec![];
    best_model_aggregation(&vec![], &mut empty);
    assert!(empty.is_empty());
}

#[test]
fn regime_smoothing_by_window_majority() {
    let (u, e, c, s) = (MarketRegime::Bull, MarketRegime::Bear, MarketRegime::Crisis, MarketRegime::Sideways);
    let regimes = vec![u, e, u, u, c, e, e];
    // windows of three: positions 2.. take the vote of the last three
    assert_eq!(apply_higher_order_smoothing(&regimes, 3), vec![u, e, u, u, u, s, e]);
    // an order of zero or longer than the sequence keeps it
    assert_eq!(apply_higher_order_smoothing(&regimes, 0), regimes);
    assert_eq!(apply_higher_order_smoothing(&regimes, 8), regimes);
    // windows of one map other regimes to sideways
    assert_eq!(apply_higher_order_smoothing(&vec![c, u, e, s], 1), vec![s, u, e, s]);
}

#[test]
fn confidence_z_scores() {
    let mut c = ArimaStrategyConfig::default_for_cpus(4);
    let z = |c: &ArimaStrategyConfig| f(c.get_confidence_z_score());
    assert_eq!(z(&c), 1.96); // 0.95
    c.confidence_level = b(0.99);
    assert_eq!(z(&c), 2.576);
    c.confidence_level = b(0.999);
    assert_eq!(z(&c), 2.576);
    c.confidence_level = b(0.92);
    assert_eq!(z(&c), 1.645);
    c.confidence_level = b(0.5);
    assert_eq!(z(&c), 1.96);
    c.confidence_level = b(f64::NAN);
    assert_eq!(z(&c), 1.96);
}

#[test]
fn test_higher_order_smoothing() {
    let regimes = vec![
        MarketRegime::Bull, MarketRegime::Bear, MarketRegime::Bull,
        MarketRegime::Bull, MarketRegime::Bear, MarketRegime::Bull,
        MarketRegime::Bull, MarketRegime::Bull, MarketRegime::Bear,
    ];

    let smoothed = apply_higher_order_smoothing(&regimes, 3);

    assert_eq!(smoothed.len(), regimes.len());

    let regime_changes = smoothed.windows(2).filter(|window| window[0] != window[1]).count();
    let original_changes = regimes.windows(2).filter(|window| window[0] != window[1]).count();

    assert!(regime_changes <= original_changes);
}
