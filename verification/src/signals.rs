//! Signals, features and risk assessments exchanged inside the hybrid
//! strategy framework, and the indicator periods derived from its
//! configuration. Values, strengths and confidences are doubles held as
//! bit patterns; see `float_bits`.

use vstd::prelude::*;
use crate::config::{first_where, lemma_first_where_at, lemma_first_where_none, TechnicalIndicatorConfig};
use crate::float_bits::{abs, f64_abs, f64_le, le, F2_0};
use crate::metadata::Metadata;
use crate::types::{DivergenceType, FeatureType, MarketRegime, PatternDirection, PatternType, RiskLevel, SignalType, Timestamp};

verus! {

/// Configuration for technical indicators calculation
#[derive(Debug, Clone)]
pub struct TechnicalConfig {
    /// RSI period
    pub rsi_period: usize,
    /// CCI period
    pub cci_period: usize,
    /// MFI period
    pub mfi_period: usize,
    /// ROC period
    pub roc_period: usize,
    /// SMA short period
    pub sma_short_period: usize,
    /// SMA long period
    pub sma_long_period: usize,
    /// EMA short period
    pub ema_short_period: usize,
    /// EMA long period
    pub ema_long_period: usize,
    /// ATR period
    pub atr_period: usize,
    /// Bollinger Bands period
    pub bollinger_period: usize,
    /// Bollinger Bands standard deviation (bits of a double)
    pub bollinger_std_dev: u64,
    /// VWAP period
    pub vwap_period: usize,
}

/// The indicator kinds whose period a technical configuration takes over.
#[derive(Debug, Clone, Copy, PartialEq, Eq, Structural)]
pub enum PeriodKind {
    /// Relative Strength Index
    Rsi,
    /// Commodity Channel Index
    Cci,
    /// Money Flow Index
    Mfi,
    /// Rate of Change
    Roc,
}

/// The period `c` sets for indicators of kind `kind`, if it is one.
pub open spec fn period_for(kind: PeriodKind, c: TechnicalIndicatorConfig) -> Option<usize> {
    match (kind, c) {
        (PeriodKind::Rsi, TechnicalIndicatorConfig::RSI { period, .. }) => Some(period),
        (PeriodKind::Cci, TechnicalIndicatorConfig::CCI { period, .. }) => Some(period),
        (PeriodKind::Mfi, TechnicalIndicatorConfig::MFI { period, .. }) => Some(period),
        (PeriodKind::Roc, TechnicalIndicatorConfig::ROC { period }) => Some(period),
        _ => None,
    }
}

/// The period of the last configuration of kind `kind`, or `default` when
/// there is none.
pub open spec fn last_period(configs: Seq<TechnicalIndicatorConfig>, kind: PeriodKind, default: usize) -> usize
    decreases configs.len(),
{
    if configs.len() == 0 {
        default
    } else {
        match period_for(kind, configs.last()) {
            Some(p) => p,
            None => last_period(configs.drop_last(), kind, default),
        }
    }
}

impl TechnicalConfig {
    /// Create configuration from technical indicator configs: each RSI, CCI,
    /// MFI and ROC period is that of the last configuration of its kind,
    /// every other setting is the default.
    pub fn from_indicators(configs: &[TechnicalIndicatorConfig]) -> (r: Self)
        ensures
            r.rsi_period == last_period(configs@, PeriodKind::Rsi, 14),
            r.cci_period == last_period(configs@, PeriodKind::Cci, 20),
            r.mfi_period == last_period(configs@, PeriodKind::Mfi, 14),
            r.roc_period == last_period(configs@, PeriodKind::Roc, 10),
            r.sma_short_period == 10,
            r.sma_long_period == 20,
            r.ema_short_period == 12,
            r.ema_long_period == 26,
            r.atr_period == 14,
            r.bollinger_period == 20,
            r.bollinger_std_dev == F2_0,
            r.vwap_period == 14,
    {
        let mut config = Self::default();
        let n = configs.len();
        let mut i: usize = 0;
        while i < n
            invariant
                n == configs@.len(),
                i <= n,
                config.rsi_period == last_period(configs@.take(i as int), PeriodKind::Rsi, 14),
                config.cci_period == last_period(configs@.take(i as int), PeriodKind::Cci, 20),
                config.mfi_period == last_period(configs@.take(i as int), PeriodKind::Mfi, 14),
                config.roc_period == last_period(configs@.take(i as int), PeriodKind::Roc, 10),
                config.sma_short_period == 10,
                config.sma_long_period == 20,
                config.ema_short_period == 12,
                config.ema_long_period == 26,
                config.atr_period == 14,
                config.bollinger_period == 20,
                config.bollinger_std_dev == F2_0,
                config.vwap_period == 14,
            decreases n - i,
        {
            proof {
                let next = configs@.take(i + 1);
                assert(next.drop_last() =~= configs@.take(i as int));
                assert(next.last() == configs@[i as int]);
            }
            match &configs[i] {
                TechnicalIndicatorConfig::RSI { period, .. } => {
                    config.rsi_period = *period;
                },
                TechnicalIndicatorConfig::CCI { period, .. } => {
                    config.cci_period = *period;
                },
                TechnicalIndicatorConfig::MFI { period, .. } => {
                    config.mfi_period = *period;
                },
                TechnicalIndicatorConfig::ROC { period } => {
                    config.roc_period = *period;
                },
                _ => {},
            }
            i = i + 1;
        }
        proof {
            assert(configs@.take(n as int) =~= configs@);
        }
        config
    }
}

impl Default for TechnicalConfig {
    fn default() -> (r: Self)
        ensures
            r.rsi_period == 14,
            r.cci_period == 20,
            r.mfi_period == 14,
            r.roc_period == 10,
            r.sma_short_period == 10,
            r.sma_long_period == 20,
            r.ema_short_period == 12,
            r.ema_long_period == 26,
            r.atr_period == 14,
            r.bollinger_period == 20,
            r.bollinger_std_dev == F2_0,
            r.vwap_period == 14,
    {
        Self {
            rsi_period: 14,
            cci_period: 20,
            mfi_period: 14,
            roc_period: 10,
            sma_short_period: 10,
            sma_long_period: 20,
            ema_short_period: 12,
            ema_long_period: 26,
            atr_period: 14,
            bollinger_period: 20,
            bollinger_std_dev: F2_0,
            vwap_period: 14,
        }
    }
}

/// Pattern detected in technical analysis
#[derive(Debug, Clone)]
pub struct Pattern {
    /// Pattern name
    pub name: String,
    /// Pattern type
    pub pattern_type: PatternType,
    /// Pattern strength (0.0 to 1.0)
    pub strength: u64,
    /// Pattern direction
    pub direction: PatternDirection,
    /// Additional metadata
    pub metadata: Metadata,
}

/// Divergence detected in technical analysis
#[derive(Debug, Clone)]
pub struct Divergence {
    /// Divergence type
    pub divergence_type: DivergenceType,
    /// Divergence strength (0.0 to 1.0)
    pub strength: u64,
    /// Time period of the divergence
    pub period: usize,
    /// Additional metadata
    pub metadata: Metadata,
}

/// Technical signal generated by technical indicators
#[derive(Debug, Clone)]
pub struct TechnicalSignal {
    /// Name of the technical indicator
    pub indicator_name: String,
    /// Current value of the indicator
    pub value: u64,
    /// Signal type (Buy, Sell, Hold)
    pub signal_type: SignalType,
    /// Signal strength (-1.0 to 1.0)
    pub strength: u64,
    /// Confidence level (0.0 to 1.0)
    pub confidence: u64,
    /// Timestamp of the signal
    pub timestamp: Timestamp,
    /// Additional metadata
    pub metadata: Metadata,
    /// Detected patterns (if any)
    pub patterns: Vec<Pattern>,
    /// Detected divergences (if any)
    pub divergences: Vec<Divergence>,
}

impl TechnicalSignal {
    /// Create a new technical signal, without metadata, patterns or
    /// divergences
    pub fn new(
        indicator_name: String,
        value: u64,
        signal_type: SignalType,
        strength: u64,
        confidence: u64,
        timestamp: Timestamp,
    ) -> (r: Self)
        ensures
            r.indicator_name == indicator_name,
            r.value == value,
            r.signal_type == signal_type,
            r.strength == strength,
            r.confidence == confidence,
            r.timestamp == timestamp,
            r.metadata@ == Map::<Seq<char>, u64>::empty(),
            r.patterns@.len() == 0,
            r.divergences@.len() == 0,
    {
        Self {
            indicator_name,
            value,
            signal_type,
            strength,
            confidence,
            timestamp,
            metadata: Metadata::new(),
            patterns: Vec::new(),
            divergences: Vec::new(),
        }
    }

    /// Add metadata to the signal
    pub fn with_metadata(self, key: String, value: u64) -> (r: Self)
        ensures
            r.metadata@ == self.metadata@.insert(key@, value),
            r == (TechnicalSignal { metadata: r.metadata, ..self }),
    {
        let mut this = self;
        this.metadata.insert(key, value);
        this
    }

    /// Add a pattern to the signal
    pub fn with_pattern(self, pattern: Pattern) -> (r: Self)
        ensures
            r.patterns@ == self.patterns@.push(pattern),
            r == (TechnicalSignal { patterns: r.patterns, ..self }),
    {
        let mut this = self;
        this.patterns.push(pattern);
        this
    }

    /// Add a divergence to the signal
    pub fn with_divergence(self, divergence: Divergence) -> (r: Self)
        ensures
            r.divergences@ == self.divergences@.push(divergence),
            r == (TechnicalSignal { divergences: r.divergences, ..self }),
    {
        let mut this = self;
        this.divergences.push(divergence);
        this
    }
}

/// Forecasting signal generated by forecasting models
#[derive(Debug, Clone)]
pub struct ForecastSignal {
    /// Name of the forecasting model
    pub model_name: String,
    /// Forecasted value
    pub forecast: u64,
    /// Confidence level (0.0 to 1.0)
    pub confidence: u64,
    /// Detected market regime
    pub regime: MarketRegime,
    /// Forecast horizon (number of periods ahead)
    pub horizon: usize,
    /// Timestamp of the forecast
    pub timestamp: Timestamp,
    /// Additional metadata
    pub metadata: Metadata,
}

impl ForecastSignal {
    /// Create a new forecast signal, without metadata
    pub fn new(
        model_name: String,
        forecast: u64,
        confidence: u64,
        regime: MarketRegime,
        horizon: usize,
        timestamp: Timestamp,
    ) -> (r: Self)
        ensures
            r.model_name == model_name,
            r.forecast == forecast,
            r.confidence == confidence,
            r.regime == regime,
            r.horizon == horizon,
            r.timestamp == timestamp,
            r.metadata@ == Map::<Seq<char>, u64>::empty(),
    {
        Self { model_name, forecast, confidence, regime, horizon, timestamp, metadata: Metadata::new() }
    }

    /// Add metadata to the forecast signal
    pub fn with_metadata(self, key: String, value: u64) -> (r: Self)
        ensures
            r.metadata@ == self.metadata@.insert(key@, value),
            r == (ForecastSignal { metadata: r.metadata, ..self }),
    {
        let mut this = self;
        this.metadata.insert(key, value);
        this
    }
}

/// Feature extracted from technical indicators or forecasting models
#[derive(Debug, Clone)]
pub struct Feature {
    /// Name of the feature
    pub name: String,
    /// Feature value
    pub value: u64,
    /// Feature type
    pub feature_type: FeatureType,
    /// Timestamp of the feature
    pub timestamp: Timestamp,
    /// Additional metadata
    pub metadata: Metadata,
}

impl Feature {
    /// Create a new feature, without metadata
    pub fn new(name: String, value: u64, feature_type: FeatureType, timestamp: Timestamp) -> (r: Self)
        ensures
            r.name == name,
            r.value == value,
            r.feature_type == feature_type,
            r.timestamp == timestamp,
            r.metadata@ == Map::<Seq<char>, u64>::empty(),
    {
        Self { name, value, feature_type, timestamp, metadata: Metadata::new() }
    }

    /// Add metadata to the feature
    pub fn with_metadata(self, key: String, value: u64) -> (r: Self)
        ensures
            r.metadata@ == self.metadata@.insert(key@, value),
            r == (Feature { metadata: r.metadata, ..self }),
    {
        let mut this = self;
        this.metadata.insert(key, value);
        this
    }
}

/// A feature named `name`.
pub open spec fn named(name: Seq<char>) -> spec_fn(Feature) -> bool {
    |f: Feature| f.name@ == name
}

/// Feature set containing multiple features
#[derive(Debug, Clone)]
pub struct FeatureSet {
    /// Features in the set
    pub features: Vec<Feature>,
    /// Timestamp of the feature set
    pub timestamp: Timestamp,
    /// Additional metadata
    pub metadata: Metadata,
}

impl FeatureSet {
    /// Create a new feature set, without metadata
    pub fn new(features: Vec<Feature>, timestamp: Timestamp) -> (r: Self)
        ensures
            r.features == features,
            r.timestamp == timestamp,
            r.metadata@ == Map::<Seq<char>, u64>::empty(),
    {
        Self { features, timestamp, metadata: Metadata::new() }
    }

    /// Add a feature to the set
    pub fn add_feature(&mut self, feature: Feature)
        ensures
            final(self).features@ == old(self).features@.push(feature),
            final(self).timestamp == old(self).timestamp,
            final(self).metadata == old(self).metadata,
    {
        self.features.push(feature);
    }

    /// Add the given features to the set, in order
    pub fn extend(&mut self, features: Vec<Feature>)
        ensures
            final(self).features@ == old(self).features@ + features@,
            final(self).timestamp == old(self).timestamp,
            final(self).metadata == old(self).metadata,
    {
        let mut more = features;
        self.features.append(&mut more);
    }

    /// Get the first feature with the given name
    pub fn get_feature(&self, name: &str) -> (r: Option<&Feature>)
        ensures
            r == (match first_where(self.features@, named(name@)) {
                Some(i) => Some(&self.features@[i]),
                None => None::<&Feature>,
            }),
    {
        let key = name.to_owned();
        let n = self.features.len();
        let mut i: usize = 0;
        while i < n
            invariant
                n == self.features@.len(),
                i <= n,
                key@ == name@,
                forall|j: int| 0 <= j < i ==> !named(name@)(#[trigger] self.features@[j]),
            decreases n - i,
        {
            if self.features[i].name == key {
                proof {
                    lemma_first_where_at(self.features@, named(name@), i as int);
                }
                return Some(&self.features[i]);
            }
            i = i + 1;
        }
        proof {
            lemma_first_where_none(self.features@, named(name@));
        }
        None
    }

    /// Get the value of the first feature with the given name
    pub fn get_value(&self, name: &str) -> (r: Option<u64>)
        ensures
            r == (match first_where(self.features@, named(name@)) {
                Some(i) => Some(self.features@[i].value),
                None => None::<u64>,
            }),
    {
        match self.get_feature(name) {
            Some(f) => Some(f.value),
            None => None,
        }
    }

    /// Get all feature names, in order
    pub fn feature_names(&self) -> (r: Vec<String>)
        ensures
            r@.len() == self.features@.len(),
            forall|i: int| 0 <= i < r@.len() ==> #[trigger] r@[i] == self.features@[i].name,
    {
        let n = self.features.len();
        let mut names: Vec<String> = Vec::new();
        let mut i: usize = 0;
        while i < n
            invariant
                n == self.features@.len(),
                i <= n,
                names@.len() == i,
                forall|j: int| 0 <= j < i ==> #[trigger] names@[j] == self.features@[j].name,
            decreases n - i,
        {
            names.push(self.features[i].name.clone());
            i = i + 1;
        }
        names
    }

    /// Get all feature values, in order
    pub fn feature_values(&self) -> (r: Vec<u64>)
        ensures
            r@.len() == self.features@.len(),
            forall|i: int| 0 <= i < r@.len() ==> #[trigger] r@[i] == self.features@[i].value,
    {
        let n = self.features.len();
        let mut values: Vec<u64> = Vec::new();
        let mut i: usize = 0;
        while i < n
            invariant
                n == self.features@.len(),
                i <= n,
                values@.len() == i,
                forall|j: int| 0 <= j < i ==> #[trigger] values@[j] == self.features@[j].value,
            decreases n - i,
        {
            values.push(self.features[i].value);
            i = i + 1;
        }
        values
    }

    /// Add metadata to the feature set
    pub fn with_metadata(self, key: String, value: u64) -> (r: Self)
        ensures
            r.metadata@ == self.metadata@.insert(key@, value),
            r == (FeatureSet { metadata: r.metadata, ..self }),
    {
        let mut this = self;
        this.metadata.insert(key, value);
        this
    }
}

/// Final hybrid signal combining technical and forecasting signals
#[derive(Debug, Clone)]
pub struct HybridSignal {
    /// Signal type (Buy, Sell, Hold)
    pub signal_type: SignalType,
    /// Overall signal strength (-1.0 to 1.0)
    pub strength: u64,
    /// Overall confidence level (0.0 to 1.0)
    pub confidence: u64,
    /// Technical confidence component
    pub technical_confidence: u64,
    /// Forecasting confidence component
    pub forecast_confidence: u64,
    /// Confirmation score (0.0 to 1.0)
    pub confirmation_score: u64,
    /// Timestamp of the signal
    pub timestamp: Timestamp,
    /// Current price
    pub price: u64,
    /// Technical signals that contributed to this signal
    pub technical_signals: Vec<TechnicalSignal>,
    /// Forecast signals that contributed to this signal
    pub forecast_signals: Vec<ForecastSignal>,
    /// Features used in signal generation
    pub features: Vec<Feature>,
    /// Additional metadata
    pub metadata: Metadata,
}

impl HybridSignal {
    /// Create a new hybrid signal, with no contributing signals, features
    /// or metadata
    pub fn new(
        signal_type: SignalType,
        strength: u64,
        confidence: u64,
        technical_confidence: u64,
        forecast_confidence: u64,
        confirmation_score: u64,
        timestamp: Timestamp,
        price: u64,
    ) -> (r: Self)
        ensures
            r.signal_type == signal_type,
            r.strength == strength,
            r.confidence == confidence,
            r.technical_confidence == technical_confidence,
            r.forecast_confidence == forecast_confidence,
            r.confirmation_score == confirmation_score,
            r.timestamp == timestamp,
            r.price == price,
            r.technical_signals@.len() == 0,
            r.forecast_signals@.len() == 0,
            r.features@.len() == 0,
            r.metadata@ == Map::<Seq<char>, u64>::empty(),
    {
        Self {
            signal_type,
            strength,
            confidence,
            technical_confidence,
            forecast_confidence,
            confirmation_score,
            timestamp,
            price,
            technical_signals: Vec::new(),
            forecast_signals: Vec::new(),
            features: Vec::new(),
            metadata: Metadata::new(),
        }
    }

    /// Add technical signals to the hybrid signal, replacing earlier ones
    pub fn with_technical_signals(self, signals: Vec<TechnicalSignal>) -> (r: Self)
        ensures
            r == (HybridSignal { technical_signals: signals, ..self }),
    {
        let mut this = self;
        this.technical_signals = signals;
        this
    }

    /// Add forecast signals to the hybrid signal, replacing earlier ones
    pub fn with_forecast_signals(self, signals: Vec<ForecastSignal>) -> (r: Self)
        ensures
            r == (HybridSignal { forecast_signals: signals, ..self }),
    {
        let mut this = self;
        this.forecast_signals = signals;
        this
    }

    /// Add features to the hybrid signal, replacing earlier ones
    pub fn with_features(self, features: Vec<Feature>) -> (r: Self)
        ensures
            r == (HybridSignal { features, ..self }),
    {
        let mut this = self;
        this.features = features;
        this
    }

    /// Add metadata to the hybrid signal
    pub fn with_metadata(self, key: String, value: u64) -> (r: Self)
        ensures
            r.metadata@ == self.metadata@.insert(key@, value),
            r == (HybridSignal { metadata: r.metadata, ..self }),
    {
        let mut this = self;
        this.metadata.insert(key, value);
        this
    }

    /// Whether the signal is strong enough to act on.
    pub open spec fn spec_is_actionable(&self, min_confidence: u64, min_strength: u64) -> bool {
        f64_le(min_confidence, self.confidence) && f64_le(min_strength, f64_abs(self.strength))
    }

    /// Check if the signal is strong enough to act on: its confidence is at
    /// least `min_confidence` and its strength, in absolute value, at least
    /// `min_strength`
    pub fn is_actionable(&self, min_confidence: u64, min_strength: u64) -> (r: bool)
        ensures
            r == self.spec_is_actionable(min_confidence, min_strength),
    {
        le(min_confidence, self.confidence) && le(min_strength, abs(self.strength))
    }

    /// Get the signal direction as a string
    pub fn direction(&self) -> (r: &'static str)
        ensures
            r@ == self.signal_type.spec_direction(),
    {
        match self.signal_type {
            SignalType::Buy => "BUY",
            SignalType::Sell => "SELL",
            SignalType::Hold => "HOLD",
        }
    }
}

/// Risk assessment for a signal
#[derive(Debug, Clone)]
pub struct RiskAssessment {
    /// Overall risk level
    pub risk_level: RiskLevel,
    /// Maximum drawdown risk
    pub max_drawdown_risk: u64,
    /// Volatility risk
    pub volatility_risk: u64,
    /// Liquidity risk
    pub liquidity_risk: u64,
    /// Additional risk factors
    pub additional_risks: Metadata,
}

/// Confirmed signal with additional validation
#[derive(Debug, Clone)]
pub struct ConfirmedSignal {
    /// Original hybrid signal
    pub original_signal: HybridSignal,
    /// Overall confirmation score (0.0 to 1.0)
    pub confirmation_score: u64,
    /// Component confirmation scores
    pub component_scores: Metadata,
    /// Risk assessment
    pub risk_assessment: RiskAssessment,
    /// Final confidence after confirmation
    pub confidence: u64,
}

/// The hybrid signal a confirmed signal stands for: the original one with
/// the confirmed confidence and confirmation score.
pub open spec fn confirmed_hybrid(confirmed: ConfirmedSignal) -> HybridSignal {
    HybridSignal {
        confidence: confirmed.confidence,
        confirmation_score: confirmed.confirmation_score,
        ..confirmed.original_signal
    }
}

impl From<ConfirmedSignal> for HybridSignal {
    fn from(confirmed: ConfirmedSignal) -> (r: Self)
        ensures
            r == confirmed_hybrid(confirmed),
    {
        let mut signal = confirmed.original_signal;
        signal.confidence = confirmed.confidence;
        signal.confirmation_score = confirmed.confirmation_score;
        signal
    }
}

impl vstd::std_specs::convert::FromSpecImpl<ConfirmedSignal> for HybridSignal {
    open spec fn obeys_from_spec() -> bool {
        true
    }

    open spec fn from_spec(v: ConfirmedSignal) -> Self {
        confirmed_hybrid(v)
    }
}

} // verus!
