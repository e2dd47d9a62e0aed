//! Configuration of the hybrid strategy framework (technical indicators,
//! forecasting models, feature engineering, signal confirmation) and its
//! validation.
//!
//! Thresholds and weights are doubles held as their bit patterns; see
//! `float_bits` for how they compare.

use vstd::prelude::*;
use std::collections::HashMap;
use crate::error::HybridError;
use crate::float_bits::{f64_le, f64_lt, in_unit_interval, is_in_unit_interval, le, lt, HUNDRED, ZERO};
use crate::text::{decimal, usize_to_decimal};

verus! {

/// Configuration for custom features
#[derive(Debug, Clone)]
pub struct CustomFeatureConfig {
    /// Feature name
    pub name: String,
    /// Feature calculation expression
    pub calculation: String,
}

impl CustomFeatureConfig {
    /// The validation outcome: the first rule broken, or none.
    pub open spec fn spec_validate(&self) -> Option<Seq<char>> {
        if self.name@.len() == 0 {
            Some("Custom feature name cannot be empty"@)
        } else if self.calculation@.len() == 0 {
            Some("Custom feature calculation cannot be empty"@)
        } else {
            None
        }
    }

    /// Validate the custom feature configuration
    pub fn validate(&self) -> (r: Result<(), String>)
        ensures
            self.spec_validate() is None ==> r is Ok,
            self.spec_validate() matches Some(m) ==> (r matches Err(e) && e@ == m),
    {
        if self.name.as_str().is_empty() {
            return Err(String::from_str("Custom feature name cannot be empty"));
        }
        if self.calculation.as_str().is_empty() {
            return Err(String::from_str("Custom feature calculation cannot be empty"));
        }
        Ok(())
    }
}

/// Configuration for feature engineering
#[derive(Debug, Clone)]
pub struct FeatureEngineeringConfig {
    /// Enable technical features
    pub technical_features: bool,
    /// Enable forecasting features
    pub forecasting_features: bool,
    /// Enable derived features
    pub derived_features: bool,
    /// Custom features
    pub custom_features: Vec<CustomFeatureConfig>,
    /// Enable feature selection
    pub feature_selection: bool,
    /// Enable feature scaling
    pub feature_scaling: bool,
}

/// The position of the first custom feature that fails validation.
pub open spec fn first_invalid_feature(features: Seq<CustomFeatureConfig>) -> Option<int> {
    if exists|i: int| 0 <= i < features.len() && (#[trigger] features[i]).spec_validate() is Some {
        Some(choose|i: int| 0 <= i < features.len() && (#[trigger] features[i]).spec_validate() is Some
            && forall|j: int| 0 <= j < i ==> (#[trigger] features[j]).spec_validate() is None)
    } else {
        None
    }
}

impl FeatureEngineeringConfig {
    /// The validation outcome: the message of the first rule broken, or none.
    pub open spec fn spec_validate(&self) -> Option<Seq<char>> {
        if !self.technical_features && !self.forecasting_features && !self.derived_features {
            Some("At least one feature type must be enabled"@)
        } else {
            match first_invalid_feature(self.custom_features@) {
                Some(i) => Some("Custom feature "@ + decimal(i as nat) + ": "@
                    + self.custom_features@[i].spec_validate()->0),
                None => None,
            }
        }
    }

    /// Validate the feature engineering configuration
    pub fn validate(&self) -> (r: Result<(), HybridError>)
        ensures
            self.spec_validate() is None ==> r is Ok,
            self.spec_validate() matches Some(m) ==> (r matches Err(HybridError::Validation(e)) && e@ == m),
    {
        if !self.technical_features && !self.forecasting_features && !self.derived_features {
            return Err(HybridError::Validation(String::from_str("At least one feature type must be enabled")));
        }
        let n = self.custom_features.len();
        let mut i: usize = 0;
        while i < n
            invariant
                n == self.custom_features@.len(),
                i <= n,
                self.technical_features || self.forecasting_features || self.derived_features,
                forall|j: int| 0 <= j < i ==> (#[trigger] self.custom_features@[j]).spec_validate() is None,
            decreases n - i,
        {
            match self.custom_features[i].validate() {
                Ok(()) => {},
                Err(e) => {
                    let mut msg = String::from_str("Custom feature ");
                    let idx = usize_to_decimal(i);
                    msg.append(idx.as_str());
                    msg.append(": ");
                    msg.append(e.as_str());
                    proof {
                        let k = i as int;
                        let fs = self.custom_features@;
                        assert(fs[k].spec_validate() is Some);
                        assert(0 <= k < fs.len() && (fs[k]).spec_validate() is Some
                            && forall|j: int| 0 <= j < k ==> (#[trigger] fs[j]).spec_validate() is None);
                        let c = choose|i: int| 0 <= i < fs.len() && (#[trigger] fs[i]).spec_validate() is Some
                            && forall|j: int| 0 <= j < i ==> (#[trigger] fs[j]).spec_validate() is None;
                        assert(first_invalid_feature(fs) == Some(c));
                        assert(c == k) by {
                            if c < k {
                                assert(fs[c].spec_validate() is None);
                            } else if c > k {
                                assert(fs[k].spec_validate() is None);
                            }
                        }

                    }
                    return Err(HybridError::Validation(msg));
                },
            }
            i = i + 1;
        }
        Ok(())
    }
}

impl Default for FeatureEngineeringConfig {
    fn default() -> (r: Self)
        ensures
            r.technical_features && r.forecasting_features && r.derived_features,
            r.custom_features@.len() == 0,
            r.feature_selection && r.feature_scaling,
    {
        Self {
            technical_features: true,
            forecasting_features: true,
            derived_features: true,
            custom_features: Vec::new(),
            feature_selection: true,
            feature_scaling: true,
        }
    }
}


/// The position of the first element of `s` that satisfies `p`.
pub open spec fn first_where<T>(s: Seq<T>, p: spec_fn(T) -> bool) -> Option<int> {
    if exists|i: int| 0 <= i < s.len() && #[trigger] p(s[i]) {
        Some(choose|i: int| 0 <= i < s.len() && #[trigger] p(s[i]) && forall|j: int| 0 <= j < i ==> !p(#[trigger] s[j]))
    } else {
        None
    }
}

/// `k` is the first position of `s` that satisfies `p`.
pub proof fn lemma_first_where_at<T>(s: Seq<T>, p: spec_fn(T) -> bool, k: int)
    requires
        0 <= k < s.len(),
        p(s[k]),
        forall|j: int| 0 <= j < k ==> !p(#[trigger] s[j]),
    ensures
        first_where(s, p) == Some(k),
{
    let c = choose|i: int| 0 <= i < s.len() && #[trigger] p(s[i]) && forall|j: int| 0 <= j < i ==> !p(#[trigger] s[j]);
    assert(0 <= k < s.len() && p(s[k]) && forall|j: int| 0 <= j < k ==> !p(#[trigger] s[j]));
    assert(c == k) by {
        if c < k {
            assert(!p(s[c]));
        } else if c > k {
            assert(!p(s[k]));
        }
    }
}

/// No position of `s` satisfies `p`.
pub proof fn lemma_first_where_none<T>(s: Seq<T>, p: spec_fn(T) -> bool)
    requires
        forall|j: int| 0 <= j < s.len() ==> !p(#[trigger] s[j]),
    ensures
        first_where(s, p) is None,
{
}

/// Configuration for technical indicators
#[derive(Debug, Clone)]
pub enum TechnicalIndicatorConfig {
    /// RSI (Relative Strength Index) configuration
    RSI {
        /// Period for RSI calculation
        period: usize,
        /// Oversold threshold (bits of a double)
        oversold: u64,
        /// Overbought threshold (bits of a double)
        overbought: u64,
    },
    /// MACD (Moving Average Convergence Divergence) configuration
    MACD {
        /// Fast period
        fast_period: usize,
        /// Slow period
        slow_period: usize,
        /// Signal period
        signal_period: usize,
    },
    /// Bollinger Bands configuration
    BollingerBands {
        /// Period for moving average
        period: usize,
        /// Standard deviation multiplier (bits of a double)
        std_dev: u64,
    },
    /// CCI (Commodity Channel Index) configuration
    CCI {
        /// Period for CCI calculation
        period: usize,
        /// Threshold for overbought/oversold (bits of a double)
        threshold: u64,
    },
    /// MFI (Money Flow Index) configuration
    MFI {
        /// Period for MFI calculation
        period: usize,
        /// Oversold threshold (bits of a double)
        oversold: u64,
        /// Overbought threshold (bits of a double)
        overbought: u64,
    },
    /// ROC (Rate of Change) configuration
    ROC {
        /// Period for ROC calculation
        period: usize,
    },
    /// Custom indicator configuration
    Custom {
        /// Indicator name
        name: String,
        /// Custom parameters
        parameters: HashMap<String, String>,
    },
}

impl TechnicalIndicatorConfig {
    /// The validation outcome: the message of the first rule broken, or none.
    pub open spec fn spec_validate(&self) -> Option<Seq<char>> {
        match *self {
            TechnicalIndicatorConfig::RSI { period, oversold, overbought } => {
                if period == 0 {
                    Some("RSI period must be greater than 0"@)
                } else if f64_le(overbought, oversold) {
                    Some("RSI oversold must be less than overbought"@)
                } else if f64_lt(oversold, ZERO) || f64_lt(HUNDRED, overbought) {
                    Some("RSI thresholds must be between 0 and 100"@)
                } else {
                    None
                }
            },
            TechnicalIndicatorConfig::MACD { fast_period, slow_period, signal_period } => {
                if fast_period == 0 || slow_period == 0 || signal_period == 0 {
                    Some("MACD periods must be greater than 0"@)
                } else if fast_period >= slow_period {
                    Some("MACD fast period must be less than slow period"@)
                } else {
                    None
                }
            },
            TechnicalIndicatorConfig::BollingerBands { period, std_dev } => {
                if period == 0 {
                    Some("Bollinger Bands period must be greater than 0"@)
                } else if f64_le(std_dev, ZERO) {
                    Some("Bollinger Bands standard deviation must be positive"@)
                } else {
                    None
                }
            },
            TechnicalIndicatorConfig::CCI { period, threshold } => {
                if period == 0 {
                    Some("CCI period must be greater than 0"@)
                } else if f64_le(threshold, ZERO) {
                    Some("CCI threshold must be positive"@)
                } else {
                    None
                }
            },
            TechnicalIndicatorConfig::MFI { period, oversold, overbought } => {
                if period == 0 {
                    Some("MFI period must be greater than 0"@)
                } else if f64_le(overbought, oversold) {
                    Some("MFI oversold must be less than overbought"@)
                } else if f64_lt(oversold, ZERO) || f64_lt(HUNDRED, overbought) {
                    Some("MFI thresholds must be between 0 and 100"@)
                } else {
                    None
                }
            },
            TechnicalIndicatorConfig::ROC { period } => {
                if period == 0 {
                    Some("ROC period must be greater than 0"@)
                } else {
                    None
                }
            },
            TechnicalIndicatorConfig::Custom { name, parameters } => {
                if name@.len() == 0 {
                    Some("Custom indicator name cannot be empty"@)
                } else if parameters@.is_empty() {
                    Some("Custom indicator must have at least one parameter"@)
                } else {
                    None
                }
            },
        }
    }

    /// Validate the technical indicator configuration
    pub fn validate(&self) -> (r: Result<(), String>)
        ensures
            self.spec_validate() is None ==> r is Ok,
            self.spec_validate() matches Some(m) ==> (r matches Err(e) && e@ == m),
    {
        match self {
            Self::RSI { period, oversold, overbought } => {
                if *period == 0 {
                    return Err(String::from_str("RSI period must be greater than 0"));
                }
                if le(*overbought, *oversold) {
                    return Err(String::from_str("RSI oversold must be less than overbought"));
                }
                if lt(*oversold, ZERO) || lt(HUNDRED, *overbought) {
                    return Err(String::from_str("RSI thresholds must be between 0 and 100"));
                }
            },
            Self::MACD { fast_period, slow_period, signal_period } => {
                if *fast_period == 0 || *slow_period == 0 || *signal_period == 0 {
                    return Err(String::from_str("MACD periods must be greater than 0"));
                }
                if *fast_period >= *slow_period {
                    return Err(String::from_str("MACD fast period must be less than slow period"));
                }
            },
            Self::BollingerBands { period, std_dev } => {
                if *period == 0 {
                    return Err(String::from_str("Bollinger Bands period must be greater than 0"));
                }
                if le(*std_dev, ZERO) {
                    return Err(String::from_str("Bollinger Bands standard deviation must be positive"));
                }
            },
            Self::CCI { period, threshold } => {
                if *period == 0 {
                    return Err(String::from_str("CCI period must be greater than 0"));
                }
                if le(*threshold, ZERO) {
                    return Err(String::from_str("CCI threshold must be positive"));
                }
            },
            Self::MFI { period, oversold, overbought } => {
                if *period == 0 {
                    return Err(String::from_str("MFI period must be greater than 0"));
                }
                if le(*overbought, *oversold) {
                    return Err(String::from_str("MFI oversold must be less than overbought"));
                }
                if lt(*oversold, ZERO) || lt(HUNDRED, *overbought) {
                    return Err(String::from_str("MFI thresholds must be between 0 and 100"));
                }
            },
            Self::ROC { period } => {
                if *period == 0 {
                    return Err(String::from_str("ROC period must be greater than 0"));
                }
            },
            Self::Custom { name, parameters } => {
                if name.as_str().is_empty() {
                    return Err(String::from_str("Custom indicator name cannot be empty"));
                }
                if parameters.is_empty() {
                    return Err(String::from_str("Custom indicator must have at least one parameter"));
                }
            },
        }
        Ok(())
    }
}

/// Configuration for forecasting models
#[derive(Debug, Clone)]
pub enum ForecastingModelConfig {
    /// ARIMA model configuration
    ARIMA {
        /// Enable automatic order selection
        auto_order: bool,
        /// Enable ensemble forecasting
        ensemble_forecasting: bool,
        /// Enable regime detection
        regime_detection: bool,
        /// Enable outlier detection
        outlier_detection: bool,
    },
    /// Ensemble model configuration
    Ensemble {
        /// Model names to include in ensemble
        models: Vec<String>,
        /// Enable adaptive weighting
        adaptive_weighting: bool,
    },
    /// Exponential Smoothing configuration
    ExponentialSmoothing {
        /// Alpha parameter (bits of a double)
        alpha: u64,
        /// Beta parameter (bits of a double)
        beta: u64,
        /// Gamma parameter (bits of a double)
        gamma: u64,
    },
    /// Custom model configuration
    Custom {
        /// Model name
        name: String,
        /// Custom parameters
        parameters: HashMap<String, String>,
    },
}

/// Whether one of `names` is the empty string.
fn has_empty_name(names: &Vec<String>) -> (r: bool)
    ensures
        r == exists|i: int| 0 <= i < names@.len() && (#[trigger] names@[i])@.len() == 0,
{
    let n = names.len();
    let mut i: usize = 0;
    while i < n
        invariant
            n == names@.len(),
            i <= n,
            forall|j: int| 0 <= j < i ==> (#[trigger] names@[j])@.len() != 0,
        decreases n - i,
    {
        if names[i].as_str().is_empty() {
            assert((names@[i as int])@.len() == 0);
            return true;
        }
        i = i + 1;
    }
    false
}

impl ForecastingModelConfig {
    /// The validation outcome: the message of the first rule broken, or none.
    pub open spec fn spec_validate(&self) -> Option<Seq<char>> {
        match *self {
            ForecastingModelConfig::ARIMA { .. } => None,
            ForecastingModelConfig::Ensemble { models, .. } => {
                if models@.len() == 0 {
                    Some("Ensemble must contain at least one model"@)
                } else if exists|i: int| 0 <= i < models@.len() && (#[trigger] models@[i])@.len() == 0 {
                    Some("Ensemble model names cannot be empty"@)
                } else {
                    None
                }
            },
            ForecastingModelConfig::ExponentialSmoothing { alpha, beta, gamma } => {
                if !in_unit_interval(alpha) {
                    Some("Exponential smoothing alpha must be between 0 and 1"@)
                } else if !in_unit_interval(beta) {
                    Some("Exponential smoothing beta must be between 0 and 1"@)
                } else if !in_unit_interval(gamma) {
                    Some("Exponential smoothing gamma must be between 0 and 1"@)
                } else {
                    None
                }
            },
            ForecastingModelConfig::Custom { name, parameters } => {
                if name@.len() == 0 {
                    Some("Custom model name cannot be empty"@)
                } else if parameters@.is_empty() {
                    Some("Custom model must have at least one parameter"@)
                } else {
                    None
                }
            },
        }
    }

    /// Validate the forecasting model configuration
    pub fn validate(&self) -> (r: Result<(), String>)
        ensures
            self.spec_validate() is None ==> r is Ok,
            self.spec_validate() matches Some(m) ==> (r matches Err(e) && e@ == m),
    {
        match self {
            Self::ARIMA { .. } => {},
            Self::Ensemble { models, .. } => {
                if models.len() == 0 {
                    return Err(String::from_str("Ensemble must contain at least one model"));
                }
                if has_empty_name(models) {
                    return Err(String::from_str("Ensemble model names cannot be empty"));
                }
            },
            Self::ExponentialSmoothing { alpha, beta, gamma } => {
                if !is_in_unit_interval(*alpha) {
                    return Err(String::from_str("Exponential smoothing alpha must be between 0 and 1"));
                }
                if !is_in_unit_interval(*beta) {
                    return Err(String::from_str("Exponential smoothing beta must be between 0 and 1"));
                }
                if !is_in_unit_interval(*gamma) {
                    return Err(String::from_str("Exponential smoothing gamma must be between 0 and 1"));
                }
            },
            Self::Custom { name, parameters } => {
                if name.as_str().is_empty() {
                    return Err(String::from_str("Custom model name cannot be empty"));
                }
                if parameters.is_empty() {
                    return Err(String::from_str("Custom model must have at least one parameter"));
                }
            },
        }
        Ok(())
    }
}

/// Configuration for custom confirmation methods
#[derive(Debug, Clone)]
pub struct CustomConfirmationConfig {
    /// Confirmation method name
    pub name: String,
    /// Weight for this confirmation method (bits of a double)
    pub weight: u64,
    /// Threshold for this confirmation method (bits of a double)
    pub threshold: u64,
}

impl CustomConfirmationConfig {
    /// The validation outcome: the message of the first rule broken, or none.
    pub open spec fn spec_validate(&self) -> Option<Seq<char>> {
        if self.name@.len() == 0 {
            Some("Custom confirmation name cannot be empty"@)
        } else if !in_unit_interval(self.weight) {
            Some("Custom confirmation weight must be between 0 and 1"@)
        } else if !in_unit_interval(self.threshold) {
            Some("Custom confirmation threshold must be between 0 and 1"@)
        } else {
            None
        }
    }

    /// Validate the custom confirmation configuration
    pub fn validate(&self) -> (r: Result<(), String>)
        ensures
            self.spec_validate() is None ==> r is Ok,
            self.spec_validate() matches Some(m) ==> (r matches Err(e) && e@ == m),
    {
        if self.name.as_str().is_empty() {
            return Err(String::from_str("Custom confirmation name cannot be empty"));
        }
        if !is_in_unit_interval(self.weight) {
            return Err(String::from_str("Custom confirmation weight must be between 0 and 1"));
        }
        if !is_in_unit_interval(self.threshold) {
            return Err(String::from_str("Custom confirmation threshold must be between 0 and 1"));
        }
        Ok(())
    }
}

/// A custom confirmation that fails validation.
pub open spec fn confirmation_invalid() -> spec_fn(CustomConfirmationConfig) -> bool {
    |c: CustomConfirmationConfig| c.spec_validate() is Some
}

/// Configuration for signal confirmation
#[derive(Debug, Clone)]
pub struct SignalConfirmationConfig {
    /// Enable technical confirmation
    pub technical_confirmation: bool,
    /// Enable forecasting confirmation
    pub forecasting_confirmation: bool,
    /// Enable volume confirmation
    pub volume_confirmation: bool,
    /// Enable pattern confirmation
    pub pattern_confirmation: bool,
    /// Enable multi-timeframe confirmation
    pub multi_timeframe: bool,
    /// Custom confirmation methods
    pub custom_confirmation: Vec<CustomConfirmationConfig>,
    /// Minimum confirmation score (bits of a double)
    pub min_confirmation_score: u64,
}

/// The bit pattern of `0.7`, the default minimum confirmation score.
pub const DEFAULT_MIN_CONFIRMATION_SCORE: u64 = 0x3fe6_6666_6666_6666;

impl SignalConfirmationConfig {
    /// The validation outcome: the message of the first rule broken, or none.
    pub open spec fn spec_validate(&self) -> Option<Seq<char>> {
        if !self.technical_confirmation && !self.forecasting_confirmation && !self.volume_confirmation
            && !self.pattern_confirmation && !self.multi_timeframe {
            Some("At least one confirmation method must be enabled"@)
        } else if !in_unit_interval(self.min_confirmation_score) {
            Some("Minimum confirmation score must be between 0 and 1"@)
        } else {
            match first_where(self.custom_confirmation@, confirmation_invalid()) {
                Some(i) => Some("Custom confirmation "@ + decimal(i as nat) + ": "@
                    + self.custom_confirmation@[i].spec_validate()->0),
                None => None,
            }
        }
    }

    /// Validate the signal confirmation configuration
    pub fn validate(&self) -> (r: Result<(), HybridError>)
        ensures
            self.spec_validate() is None ==> r is Ok,
            self.spec_validate() matches Some(m) ==> (r matches Err(HybridError::Validation(e)) && e@ == m),
    {
        if !self.technical_confirmation && !self.forecasting_confirmation && !self.volume_confirmation
            && !self.pattern_confirmation && !self.multi_timeframe {
            return Err(HybridError::Validation(String::from_str("At least one confirmation method must be enabled")));
        }
        if !is_in_unit_interval(self.min_confirmation_score) {
            return Err(HybridError::Validation(String::from_str("Minimum confirmation score must be between 0 and 1")));
        }
        let n = self.custom_confirmation.len();
        let mut i: usize = 0;
        while i < n
            invariant
                n == self.custom_confirmation@.len(),
                i <= n,
                self.technical_confirmation || self.forecasting_confirmation || self.volume_confirmation
                    || self.pattern_confirmation || self.multi_timeframe,
                in_unit_interval(self.min_confirmation_score),
                forall|j: int| 0 <= j < i ==> !confirmation_invalid()(#[trigger] self.custom_confirmation@[j]),
            decreases n - i,
        {
            match self.custom_confirmation[i].validate() {
                Ok(()) => {},
                Err(e) => {
                    let mut msg = String::from_str("Custom confirmation ");
                    let idx = usize_to_decimal(i);
                    msg.append(idx.as_str());
                    msg.append(": ");
                    msg.append(e.as_str());
                    proof {
                        let cs = self.custom_confirmation@;
                        assert(cs[i as int].spec_validate() is Some);
                        assert(confirmation_invalid()(cs[i as int]));
                        lemma_first_where_at(cs, confirmation_invalid(), i as int);
                    }
                    return Err(HybridError::Validation(msg));
                },
            }
            i = i + 1;
        }
        proof {
            lemma_first_where_none(self.custom_confirmation@, confirmation_invalid());
        }
        Ok(())
    }
}

impl Default for SignalConfirmationConfig {
    fn default() -> (r: Self)
        ensures
            r.technical_confirmation && r.forecasting_confirmation && r.volume_confirmation,
            r.pattern_confirmation && r.multi_timeframe,
            r.custom_confirmation@.len() == 0,
            r.min_confirmation_score == DEFAULT_MIN_CONFIRMATION_SCORE,
    {
        Self {
            technical_confirmation: true,
            forecasting_confirmation: true,
            volume_confirmation: true,
            pattern_confirmation: true,
            multi_timeframe: true,
            custom_confirmation: Vec::new(),
            min_confirmation_score: DEFAULT_MIN_CONFIRMATION_SCORE,
        }
    }
}

/// A technical indicator configuration that fails validation.
pub open spec fn indicator_invalid() -> spec_fn(TechnicalIndicatorConfig) -> bool {
    |c: TechnicalIndicatorConfig| c.spec_validate() is Some
}

/// A forecasting model configuration that fails validation.
pub open spec fn model_invalid() -> spec_fn(ForecastingModelConfig) -> bool {
    |c: ForecastingModelConfig| c.spec_validate() is Some
}

/// The outcome of validating the components of a hybrid strategy
/// configuration, in the order the checks are made: the message of the
/// first rule broken, or none.
pub open spec fn components_problem(
    technical_indicators: Seq<TechnicalIndicatorConfig>,
    forecasting_models: Seq<ForecastingModelConfig>,
    feature_engineering: FeatureEngineeringConfig,
    signal_confirmation: SignalConfirmationConfig,
) -> Option<Seq<char>> {
    if technical_indicators.len() == 0 {
        Some("At least one technical indicator is required"@)
    } else if forecasting_models.len() == 0 {
        Some("At least one forecasting model is required"@)
    } else if let Some(i) = first_where(technical_indicators, indicator_invalid()) {
        Some("Technical indicator "@ + decimal(i as nat) + ": "@ + technical_indicators[i].spec_validate()->0)
    } else if let Some(i) = first_where(forecasting_models, model_invalid()) {
        Some("Forecasting model "@ + decimal(i as nat) + ": "@ + forecasting_models[i].spec_validate()->0)
    } else if feature_engineering.spec_validate() is Some {
        feature_engineering.spec_validate()
    } else {
        signal_confirmation.spec_validate()
    }
}

/// Validates the components of a hybrid strategy configuration: at least
/// one technical indicator and one forecasting model, each of them valid
/// (the first invalid one is reported with its position), then the feature
/// engineering and signal confirmation settings.
pub fn validate_strategy_components(
    technical_indicators: &Vec<TechnicalIndicatorConfig>,
    forecasting_models: &Vec<ForecastingModelConfig>,
    feature_engineering: &FeatureEngineeringConfig,
    signal_confirmation: &SignalConfirmationConfig,
) -> (r: Result<(), HybridError>)
    ensures
        components_problem(technical_indicators@, forecasting_models@, *feature_engineering, *signal_confirmation)
            is None ==> r is Ok,
        components_problem(technical_indicators@, forecasting_models@, *feature_engineering, *signal_confirmation)
            matches Some(m) ==> (r matches Err(HybridError::Validation(e)) && e@ == m),
{
    if technical_indicators.len() == 0 {
        return Err(HybridError::Validation(String::from_str("At least one technical indicator is required")));
    }
    if forecasting_models.len() == 0 {
        return Err(HybridError::Validation(String::from_str("At least one forecasting model is required")));
    }
    let n = technical_indicators.len();
    let mut i: usize = 0;
    while i < n
        invariant
            n == technical_indicators@.len(),
            i <= n,
            technical_indicators@.len() > 0,
            forecasting_models@.len() > 0,
            forall|j: int| 0 <= j < i ==> !indicator_invalid()(#[trigger] technical_indicators@[j]),
        decreases n - i,
    {
        match technical_indicators[i].validate() {
            Ok(()) => {},
            Err(e) => {
                let mut msg = String::from_str("Technical indicator ");
                let idx = usize_to_decimal(i);
                msg.append(idx.as_str());
                msg.append(": ");
                msg.append(e.as_str());
                proof {
                    let cs = technical_indicators@;
                    assert(indicator_invalid()(cs[i as int]));
                    lemma_first_where_at(cs, indicator_invalid(), i as int);
                }
                return Err(HybridError::Validation(msg));
            },
        }
        i = i + 1;
    }
    proof {
        lemma_first_where_none(technical_indicators@, indicator_invalid());
    }
    let n = forecasting_models.len();
    let mut i: usize = 0;
    while i < n
        invariant
            n == forecasting_models@.len(),
            i <= n,
            technical_indicators@.len() > 0,
            forecasting_models@.len() > 0,
            first_where(technical_indicators@, indicator_invalid()) is None,
            forall|j: int| 0 <= j < i ==> !model_invalid()(#[trigger] forecasting_models@[j]),
        decreases n - i,
    {
        match forecasting_models[i].validate() {
            Ok(()) => {},
            Err(e) => {
                let mut msg = String::from_str("Forecasting model ");
                let idx = usize_to_decimal(i);
                msg.append(idx.as_str());
                msg.append(": ");
                msg.append(e.as_str());
                proof {
                    let cs = forecasting_models@;
                    assert(model_invalid()(cs[i as int]));
                    lemma_first_where_at(cs, model_invalid(), i as int);
                }
                return Err(HybridError::Validation(msg));
            },
        }
        i = i + 1;
    }
    proof {
        lemma_first_where_none(forecasting_models@, model_invalid());
    }
    match feature_engineering.validate() {
        Ok(()) => {},
        Err(e) => {
            return Err(e);
        },
    }
    signal_confirmation.validate()
}

/// Which technical indicator configurations are accepted: every period
/// positive; for RSI and MFI the overbought threshold not at or below the
/// oversold one, the oversold one not below 0 and the overbought one not
/// above 100; for MACD the fast period shorter than the slow one; a
/// standard deviation (Bollinger Bands) or threshold (CCI) not at or below
/// zero (comparisons with NaN are false, as for doubles); a named custom indicator with at least one
/// parameter. A MACD configuration whose periods are positive but whose
/// fast period is not shorter than its slow one is refused with "MACD fast
/// period must be less than slow period".
pub proof fn lemma_indicator_accepted(c: TechnicalIndicatorConfig)
    ensures
        c.spec_validate() is None <==> match c {
            TechnicalIndicatorConfig::RSI { period, oversold, overbought } => period > 0 && !f64_le(overbought,
                oversold) && !f64_lt(oversold, ZERO) && !f64_lt(HUNDRED, overbought),
            TechnicalIndicatorConfig::MACD { fast_period, slow_period, signal_period } => 0 < fast_period
                < slow_period && signal_period > 0,
            TechnicalIndicatorConfig::BollingerBands { period, std_dev } => period > 0 && !f64_le(std_dev, ZERO),
            TechnicalIndicatorConfig::CCI { period, threshold } => period > 0 && !f64_le(threshold, ZERO),
            TechnicalIndicatorConfig::MFI { period, oversold, overbought } => period > 0 && !f64_le(overbought,
                oversold) && !f64_lt(oversold, ZERO) && !f64_lt(HUNDRED, overbought),
            TechnicalIndicatorConfig::ROC { period } => period > 0,
            TechnicalIndicatorConfig::Custom { name, parameters } => name@.len() > 0 && !parameters@.is_empty(),
        },
        c matches TechnicalIndicatorConfig::MACD { fast_period, slow_period, signal_period } ==> (fast_period > 0
            && slow_period > 0 && signal_period > 0 && fast_period >= slow_period ==> c.spec_validate() == Some(
            "MACD fast period must be less than slow period"@)),
{
}

/// A custom feature is accepted exactly when its name and its calculation
/// are both non-empty.
pub proof fn lemma_custom_feature_accepted(c: CustomFeatureConfig)
    ensures
        c.spec_validate() is None <==> c.name@.len() > 0 && c.calculation@.len() > 0,
{
}

/// A feature engineering configuration is accepted exactly when at least
/// one feature type is enabled and every custom feature is accepted.
pub proof fn lemma_feature_engineering_accepted(c: FeatureEngineeringConfig)
    ensures
        c.spec_validate() is None <==> (c.technical_features || c.forecasting_features || c.derived_features)
            && forall|i: int| 0 <= i < c.custom_features@.len() ==> (#[trigger] c.custom_features@[i]).name@.len()
            > 0 && c.custom_features@[i].calculation@.len() > 0,
{
    let f = c.custom_features@;
    if exists|i: int| 0 <= i < f.len() && (#[trigger] f[i]).spec_validate() is Some {
        let i = choose|i: int| 0 <= i < f.len() && (#[trigger] f[i]).spec_validate() is Some;
        assert(!(f[i].name@.len() > 0 && f[i].calculation@.len() > 0));
        lemma_some_first_invalid_feature(f);
    } else {
        assert forall|i: int| 0 <= i < f.len() implies (#[trigger] f[i]).name@.len() > 0 && f[i].calculation@.len()
            > 0 by {
            assert(f[i].spec_validate() is None);
        }
    }
}

/// When some custom feature fails validation, a first one exists.
proof fn lemma_some_first_invalid_feature(f: Seq<CustomFeatureConfig>)
    requires
        exists|i: int| 0 <= i < f.len() && (#[trigger] f[i]).spec_validate() is Some,
    ensures
        first_invalid_feature(f) is Some,
    decreases f.len(),
{
    let i = choose|i: int| 0 <= i < f.len() && (#[trigger] f[i]).spec_validate() is Some;
    lemma_first_of(f, i);
}

/// Below any failing position there is a first failing position.
proof fn lemma_first_of(f: Seq<CustomFeatureConfig>, i: int)
    requires
        0 <= i < f.len(),
        f[i].spec_validate() is Some,
    ensures
        exists|k: int| 0 <= k < f.len() && (#[trigger] f[k]).spec_validate() is Some && forall|j: int| 0 <= j < k
            ==> (#[trigger] f[j]).spec_validate() is None,
    decreases i,
{
    if exists|j: int| 0 <= j < i && (#[trigger] f[j]).spec_validate() is Some {
        let j = choose|j: int| 0 <= j < i && (#[trigger] f[j]).spec_validate() is Some;
        lemma_first_of(f, j);
    } else {
        assert(forall|j: int| 0 <= j < i ==> (#[trigger] f[j]).spec_validate() is None);
    }
}

/// A forecasting model configuration is accepted exactly when: an ensemble
/// names at least one model and no model by the empty name; exponential
/// smoothing has alpha, beta and gamma in [0, 1]; a custom model is named
/// and has at least one parameter. ARIMA settings are always accepted.
pub proof fn lemma_model_accepted(c: ForecastingModelConfig)
    ensures
        c.spec_validate() is None <==> match c {
            ForecastingModelConfig::ARIMA { .. } => true,
            ForecastingModelConfig::Ensemble { models, .. } => models@.len() > 0 && forall|i: int| 0 <= i
                < models@.len() ==> (#[trigger] models@[i])@.len() > 0,
            ForecastingModelConfig::ExponentialSmoothing { alpha, beta, gamma, .. } => in_unit_interval(alpha)
                && in_unit_interval(beta) && in_unit_interval(gamma),
            ForecastingModelConfig::Custom { name, parameters } => name@.len() > 0 && !parameters@.is_empty(),
        },
{
}

/// A custom confirmation is accepted exactly when it is named and its
/// weight and threshold lie in [0, 1].
pub proof fn lemma_custom_confirmation_accepted(c: CustomConfirmationConfig)
    ensures
        c.spec_validate() is None <==> c.name@.len() > 0 && in_unit_interval(c.weight) && in_unit_interval(
            c.threshold),
{
}

/// A signal confirmation configuration is accepted exactly when at least
/// one confirmation method is enabled, the minimum score lies in [0, 1],
/// and every custom confirmation is accepted.
pub proof fn lemma_signal_confirmation_accepted(c: SignalConfirmationConfig)
    ensures
        c.spec_validate() is None <==> (c.technical_confirmation || c.forecasting_confirmation
            || c.volume_confirmation || c.pattern_confirmation || c.multi_timeframe) && in_unit_interval(
            c.min_confirmation_score) && forall|i: int| 0 <= i < c.custom_confirmation@.len() ==> {
            let x = #[trigger] c.custom_confirmation@[i];
            x.name@.len() > 0 && in_unit_interval(x.weight) && in_unit_interval(x.threshold)
        },
{
    let f = c.custom_confirmation@;
    let p = confirmation_invalid();
    if exists|i: int| 0 <= i < f.len() && #[trigger] p(f[i]) {
        let i = choose|i: int| 0 <= i < f.len() && #[trigger] p(f[i]);
        assert(f[i].spec_validate() is Some);
        lemma_first_where_some(f, p, i);
    } else {
        assert forall|i: int| 0 <= i < f.len() implies {
            let x = #[trigger] f[i];
            x.name@.len() > 0 && in_unit_interval(x.weight) && in_unit_interval(x.threshold)
        } by {
            assert(!p(f[i]));
        }
    }
}

/// When some position of `s` satisfies `p`, there is a first one.
proof fn lemma_first_where_some<T>(s: Seq<T>, p: spec_fn(T) -> bool, i: int)
    requires
        0 <= i < s.len(),
        p(s[i]),
    ensures
        first_where(s, p) is Some,
    decreases i,
{
    if exists|j: int| 0 <= j < i && #[trigger] p(s[j]) {
        let j = choose|j: int| 0 <= j < i && #[trigger] p(s[j]);
        lemma_first_where_some(s, p, j);
    } else {
        lemma_first_where_at(s, p, i);
    }
}

/// The components of a hybrid strategy are accepted exactly when there is
/// at least one technical indicator and one forecasting model, each of
/// them is accepted, and the feature engineering and signal confirmation
/// settings are accepted.
pub proof fn lemma_components_accepted(
    technical_indicators: Seq<TechnicalIndicatorConfig>,
    forecasting_models: Seq<ForecastingModelConfig>,
    feature_engineering: FeatureEngineeringConfig,
    signal_confirmation: SignalConfirmationConfig,
)
    ensures
        components_problem(technical_indicators, forecasting_models, feature_engineering, signal_confirmation)
            is None <==> {
            &&& technical_indicators.len() > 0
            &&& forecasting_models.len() > 0
            &&& forall|i: int| 0 <= i < technical_indicators.len() ==> (#[trigger] technical_indicators[i]).spec_validate() is None
            &&& forall|i: int| 0 <= i < forecasting_models.len() ==> (#[trigger] forecasting_models[i]).spec_validate() is None
            &&& feature_engineering.spec_validate() is None
            &&& signal_confirmation.spec_validate() is None
        },
{
    let pi = indicator_invalid();
    let pm = model_invalid();
    if exists|i: int| 0 <= i < technical_indicators.len() && #[trigger] pi(technical_indicators[i]) {
        let i = choose|i: int| 0 <= i < technical_indicators.len() && #[trigger] pi(technical_indicators[i]);
        lemma_first_where_some(technical_indicators, pi, i);
    }
    if exists|i: int| 0 <= i < forecasting_models.len() && #[trigger] pm(forecasting_models[i]) {
        let i = choose|i: int| 0 <= i < forecasting_models.len() && #[trigger] pm(forecasting_models[i]);
        lemma_first_where_some(forecasting_models, pm, i);
    }
    assert forall|i: int| 0 <= i < technical_indicators.len() && !pi(technical_indicators[i]) implies
        (#[trigger] technical_indicators[i]).spec_validate() is None by {}
    assert forall|i: int| 0 <= i < forecasting_models.len() && !pm(forecasting_models[i]) implies
        (#[trigger] forecasting_models[i]).spec_validate() is None by {}
}

} // verus!
