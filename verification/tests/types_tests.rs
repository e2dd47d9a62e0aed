use nyxs_owl::config::{CustomFeatureConfig, FeatureEngineeringConfig};
use nyxs_owl::error::HybridError;
use nyxs_owl::types::MarketRegime;

#[test]
fn test_market_regime_names() {
    assert_eq!(MarketRegime::Trending.name(), "Trending");
    assert_eq!(MarketRegime::Ranging.name(), "Ranging");
    assert_eq!(MarketRegime::Volatile.name(), "Volatile");
    assert_eq!(MarketRegime::Unknown.name(), "Unknown");
}

#[test]
fn market_regime_other_names() {
    assert_eq!(MarketRegime::LowVolatility.name(), "LowVolatility");
    assert_eq!(MarketRegime::HighVolatility.name(), "HighVolatility");
}

fn feature(name: &str, calc: &str) -> CustomFeatureConfig {
    CustomFeatureConfig { name: name.to_string(), calculation: calc.to_string() }
}

#[test]
fn feature_engineering_validation() {
    let mut cfg = FeatureEngineeringConfig::default();
    assert!(cfg.validate().is_ok());
    cfg.custom_features = vec![feature("f", "x"), feature("g", ""), feature("", "y")];
    match cfg.validate() {
        Err(HybridError::Validation(m)) => {
            assert_eq!(m, "Custom feature 1: Custom feature calculation cannot be empty")
        }
        other => panic!("unexpected {:?}", other),
    }
    cfg.technical_features = false;
    cfg.forecasting_features = false;
    cfg.derived_features = false;
    match cfg.validate() {
        Err(HybridError::Validation(m)) => assert_eq!(m, "At least one feature type must be enabled"),
        other => panic!("unexpected {:?}", other),
    }
    assert_eq!(feature("", "").validate(), Err("Custom feature name cannot be empty".to_string()));
    assert_eq!(feature("a", "b").validate(), Ok(()));
}
