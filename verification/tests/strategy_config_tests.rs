use nyxs_owl::arima::{row_usability, walk_forward_fit_rows, ArimaStrategy, ArimaStrategyType};
use nyxs_owl::forecast_utils::validate_data;
use nyxs_owl::strategy_config::{ConfigValue, FloatParameter, StrategyConfig};
use nyxs_owl::types::NyxsOwlError;

type NyxsOwlResult<T> = Result<T, NyxsOwlError>;

fn float_value(f: f64) -> ConfigValue {
    ConfigValue::Float(f.to_bits())
}

fn as_float(p: FloatParameter) -> f64 {
    match p {
        FloatParameter::Bits(b) => f64::from_bits(b),
        FloatParameter::Int(v) => v as f64,
    }
}

#[test]
fn strategy_config_creation_and_getters() -> NyxsOwlResult<()> {
    let config = StrategyConfig::new()
        .with_parameter("period", 20)
        .with_parameter("factor", float_value(2.5))
        .with_parameter("name", "Test Strategy".to_string())
        .with_parameter("enabled", true);

    assert_eq!(config.get_int("period")?, 20);
    assert_eq!(as_float(config.get_float("factor")?), 2.5);
    assert_eq!(as_float(config.get_float("period")?), 20.0);
    assert_eq!(config.get_string("name")?, "Test Strategy");
    assert_eq!(config.get_bool("enabled")?, true);

    assert!(config.get_int("factor").is_err());
    assert!(config.get_string("period").is_err());
    assert!(config.get_bool("name").is_err());
    assert!(config.get_float("enabled").is_err());

    assert!(config.get_int("non_existent").is_err());
    Ok(())
}

#[test]
fn strategy_config_validation_logic() {
    let config = StrategyConfig::new()
        .with_parameter("p1", 10)
        .with_parameter("p2", "value");

    assert_eq!(config.validate(&["p1", "p2"]), Ok(()));
    assert!(config.validate(&["p1", "p3"]).is_err());
    assert_eq!(
        config.validate(&["p1", "p3", "p4"]),
        Err("Missing required config keys: p3, p4".to_string())
    );
}

#[test]
fn strategy_config_error_messages() {
    let config = StrategyConfig::new().with_parameter("x", true).with_parameter("x", 3i64);
    assert_eq!(config.get_int("x"), Ok(3));
    assert_eq!(
        config.get_bool("x"),
        Err(NyxsOwlError::StrategyError("Parameter 'x' is not a boolean. Found: Int(3)".to_string()))
    );
    let shown = StrategyConfig::new()
        .with_parameter("n", -7i64)
        .with_parameter("s", "a\"b".to_string())
        .with_parameter("b", true)
        .with_parameter("f", ConfigValue::Float(2.5f64.to_bits()));
    assert_eq!(
        shown.get_string("n"),
        Err(NyxsOwlError::StrategyError("Parameter 'n' is not a string. Found: Int(-7)".to_string()))
    );
    assert_eq!(
        shown.get_int("s"),
        Err(NyxsOwlError::StrategyError("Parameter 's' is not an integer. Found: String(\"a\\\"b\")".to_string()))
    );
    assert_eq!(
        shown.get_float("b"),
        Err(NyxsOwlError::StrategyError("Parameter 'b' is not a float. Found: Bool(true)".to_string()))
    );
    assert_eq!(
        shown.get_bool("f"),
        Err(NyxsOwlError::StrategyError("Parameter 'f' is not a boolean. Found: Float".to_string()))
    );
    assert_eq!(
        config.get_string("y"),
        Err(NyxsOwlError::StrategyError("Required string parameter 'y' not found.".to_string()))
    );
    assert!(config.contains_key("x"));
    assert!(!config.contains_key("y"));
    let copy = config.clone();
    assert_eq!(copy.get_int("x"), Ok(3));
    assert_eq!(StrategyConfig::default().validate(&[]), Ok(()));
}

fn create_config(p: i64, d: i64, q: i64, threshold: f64, strategy_type: &str) -> StrategyConfig {
    StrategyConfig::new()
        .with_parameter("p", p)
        .with_parameter("d", d)
        .with_parameter("q", q)
        .with_parameter("threshold", float_value(threshold))
        .with_parameter("strategy_type", strategy_type.to_string())
}

#[test]
fn test_arima_strategy_new() {
    let config = create_config(5, 1, 0, 0.01, "trend_following");
    let strategy = ArimaStrategy::new(config.clone());
    assert_eq!(strategy.name(), "ARIMA Strategy");
    assert_eq!(strategy.config().get_int("p").unwrap(), 5);
    assert_eq!(strategy.p(), 5);
    assert_eq!(strategy.d(), 1);
    assert_eq!(strategy.q(), 0);
    assert_eq!(as_float(strategy.threshold()), 0.01);
    assert_eq!(strategy.min_data_points(), 60);
    assert!(strategy.required_columns().contains(&"timestamp"));
    assert!(strategy.required_columns().contains(&"close"));
}

#[test]
fn arima_strategy_rejects_bad_configs() {
    let missing = StrategyConfig::new().with_parameter("p", 5i64);
    assert!(ArimaStrategy::try_new(missing).is_none());
    let invalid = create_config(5, 1, 0, 0.01, "invalid_type");
    assert!(ArimaStrategy::try_new(invalid).is_none());
    let upper = create_config(30, 10, 5, 0.02, "Trend_Following");
    let s = ArimaStrategy::try_new(upper).expect("accepted");
    assert_eq!(s.min_data_points(), 65);
    assert_eq!(s.min_dense_values(), 50);
}

#[test]
fn arima_strategy_type_parsing() {
    assert_eq!(ArimaStrategyType::from_string("TRENDFOLLOWING"), Ok(ArimaStrategyType::TrendFollowing));
    assert_eq!(
        ArimaStrategyType::from_string("Mean"),
        Err(NyxsOwlError::InvalidParameter("Unknown ArimaStrategyType: Mean".to_string()))
    );
    assert_eq!(
        ArimaStrategyType::from_lowercase("trend_following", "X"),
        Ok(ArimaStrategyType::TrendFollowing)
    );
}

/// Checks a table with the given columns and number of rows against the
/// strategy's requirements.
fn validate_table(strategy: &ArimaStrategy, columns: &[&str], height: usize) -> Result<(), NyxsOwlError> {
    let available: Vec<String> = columns.iter().map(|c| c.to_string()).collect();
    validate_data(strategy.name(), &strategy.required_columns(), &available, height, strategy.min_data_points())
}

#[test]
fn test_arima_required_columns_validation() {
    let config = create_config(1, 0, 0, 0.01, "trend_following");
    let strategy = ArimaStrategy::new(config);
    assert!(validate_table(&strategy, &["timestamp", "close"], strategy.min_data_points()).is_ok());

    match validate_table(&strategy, &["timestamp"], 1) {
        Err(NyxsOwlError::MissingData(msg)) => {
            assert!(msg.contains("Column 'close' not found"));
        }
        _ => panic!("Expected MissingData error for 'close'"),
    }

    match validate_table(&strategy, &["close"], 2) {
        Err(NyxsOwlError::MissingData(msg)) => {
            assert!(msg.contains("Column 'timestamp' not found"));
        }
        _ => panic!("Expected MissingData error for 'timestamp'"),
    }
}

#[test]
fn test_arima_min_data_points_validation() {
    let config = create_config(1, 0, 0, 0.01, "trend_following");
    let strategy = ArimaStrategy::new(config);
    let min_points = strategy.min_data_points();

    match validate_table(&strategy, &["timestamp", "close"], min_points - 1) {
        Err(NyxsOwlError::StrategyError(msg)) => {
            assert!(msg.contains(&format!("requires at least {} data points, but got {}", min_points, min_points - 1)));
        }
        _ => panic!("Expected StrategyError for insufficient data ({} rows, min {})", min_points - 1, min_points),
    }

    assert!(validate_table(&strategy, &["timestamp", "close"], min_points).is_ok());
}

#[test]
fn walk_forward_uses_only_earlier_usable_rows() {
    let usable = vec![true, false, true, true, false, true];
    assert_eq!(walk_forward_fit_rows(&usable, 4, 2), Some(vec![0, 2, 3]));
    assert_eq!(walk_forward_fit_rows(&usable, 4, 4), None);
    assert_eq!(walk_forward_fit_rows(&usable, 6, 4), Some(vec![0, 2, 3, 5]));
    assert_eq!(walk_forward_fit_rows(&usable, 0, 0), Some(vec![]));
    assert_eq!(walk_forward_fit_rows(&usable, 0, 1), None);
}

#[test]
fn row_usability_needs_close_and_valid_instant() {
    let timestamps = vec![Some(947_638_923_004i64), None, Some(i64::MAX), Some(0), Some(-2_208_936_075_000)];
    let closes_present = vec![true, true, true, false, true];
    assert_eq!(row_usability(&timestamps, &closes_present), vec![true, false, false, false, true]);
    let usable = row_usability(&timestamps, &closes_present);
    assert_eq!(walk_forward_fit_rows(&usable, 5, 1), Some(vec![0, 4]));
}

#[test]
fn forecast_fit_rows_start_at_min_data_points() {
    let strategy = ArimaStrategy::new(create_config(1, 0, 1, 0.01, "trend_following"));
    assert_eq!(strategy.min_data_points(), 60);
    let mut usable = vec![true; 70];
    usable[3] = false;
    assert_eq!(strategy.forecast_fit_rows(&usable, 59), None);
    let rows = strategy.forecast_fit_rows(&usable, 62).unwrap();
    assert_eq!(rows.len(), 61);
    assert!(!rows.contains(&3));
    assert!(rows.iter().all(|&k| k < 62));
    let sparse = vec![false; 70];
    assert_eq!(strategy.forecast_fit_rows(&sparse, 65), None);
}
