//! Common result, signal and classification types shared across the crate.

use vstd::prelude::*;

verus! {

/// Error type shared by all strategies and utilities of the crate.
#[derive(Debug, PartialEq, Eq)]
pub enum NyxsOwlError {
    /// A strategy could not produce its output.
    StrategyError(String),
    /// Input data was malformed or inconsistent.
    DataError(String),
    /// Required data (a column, a row range) was absent.
    MissingData(String),
    /// A parameter had an invalid value.
    InvalidParameter(String),
    /// A forecasting model failed.
    ModelError(String),
    /// A technical indicator failed.
    IndicatorError(String),
    /// Input validation failed.
    ValidationError(String),
    /// A backtest could not be run.
    BacktestError(String),
}

/// A point in time in UTC: whole seconds since the Unix epoch and the
/// nanoseconds within that second.
#[derive(Debug, Clone, Copy, PartialEq, Eq, Structural)]
pub struct Timestamp {
    /// Seconds since 1970-01-01T00:00:00Z (negative before it).
    pub secs: i64,
    /// Nanoseconds within the second.
    pub nanos: u32,
}

/// Trading signal emitted by strategies.
#[derive(Debug, Clone, Copy, PartialEq, Eq, Structural)]
pub enum Signal {
    /// Open or add to a long position.
    Buy,
    /// Close a long position or open a short one.
    Sell,
    /// Do nothing.
    Hold,
}


/// Direction of a signal produced by the hybrid framework.
#[derive(Debug, Clone, Copy, PartialEq, Eq, Structural)]
pub enum SignalType {
    /// Buy signal
    Buy,
    /// Sell signal
    Sell,
    /// Hold signal
    Hold,
}

impl SignalType {
    /// The direction label of a signal type.
    pub open spec fn spec_direction(self) -> Seq<char> {
        match self {
            SignalType::Buy => "BUY"@,
            SignalType::Sell => "SELL"@,
            SignalType::Hold => "HOLD"@,
        }
    }
}

/// Feature type classification
#[derive(Debug, Clone)]
pub enum FeatureType {
    /// Momentum features (RSI, MACD, etc.)
    Momentum,
    /// Volatility features (Bollinger Bands, ATR, etc.)
    Volatility,
    /// Trend features (Moving averages, ADX, etc.)
    Trend,
    /// Volume features (OBV, VWAP, etc.)
    Volume,
    /// Forecasting features
    Forecasting,
    /// Derived features (interactions, lags, etc.)
    Derived,
    /// Custom features
    Custom(String),
}

/// Pattern type classification
#[derive(Debug, Clone)]
pub enum PatternType {
    /// Candlestick patterns
    Candlestick,
    /// Chart patterns
    Chart,
    /// Harmonic patterns
    Harmonic,
    /// Elliott Wave patterns
    ElliottWave,
    /// Custom patterns
    Custom(String),
}

/// Pattern direction
#[derive(Debug, Clone, Copy, PartialEq, Eq, Structural)]
pub enum PatternDirection {
    /// Bullish pattern
    Bullish,
    /// Bearish pattern
    Bearish,
    /// Neutral pattern
    Neutral,
}

/// Divergence type classification
#[derive(Debug, Clone, Copy, PartialEq, Eq, Structural)]
pub enum DivergenceType {
    /// Bullish divergence (price makes lower low, indicator makes higher low)
    Bullish,
    /// Bearish divergence (price makes higher high, indicator makes lower high)
    Bearish,
    /// Hidden bullish divergence
    HiddenBullish,
    /// Hidden bearish divergence
    HiddenBearish,
}

/// Risk level classification
#[derive(Debug, Clone, Copy, PartialEq, Eq, Structural)]
pub enum RiskLevel {
    /// Low risk
    Low,
    /// Medium risk
    Medium,
    /// High risk
    High,
    /// Very high risk
    VeryHigh,
}

/// Market regime classification
#[derive(Debug, Clone, Copy, PartialEq, Eq, Structural)]
pub enum MarketRegime {
    /// Trending market
    Trending,
    /// Ranging/sideways market
    Ranging,
    /// Volatile market
    Volatile,
    /// Low volatility market
    LowVolatility,
    /// High volatility market
    HighVolatility,
    /// Unknown regime
    Unknown,
}

impl MarketRegime {
    /// The name of a regime.
    pub open spec fn spec_name(self) -> Seq<char> {
        match self {
            MarketRegime::Trending => "Trending"@,
            MarketRegime::Ranging => "Ranging"@,
            MarketRegime::Volatile => "Volatile"@,
            MarketRegime::LowVolatility => "LowVolatility"@,
            MarketRegime::HighVolatility => "HighVolatility"@,
            MarketRegime::Unknown => "Unknown"@,
        }
    }

    /// Get the regime name as a string
    pub fn name(&self) -> (r: &'static str)
        ensures
            r@ == self.spec_name(),
    {
        match self {
            MarketRegime::Trending => "Trending",
            MarketRegime::Ranging => "Ranging",
            MarketRegime::Volatile => "Volatile",
            MarketRegime::LowVolatility => "LowVolatility",
            MarketRegime::HighVolatility => "HighVolatility",
            MarketRegime::Unknown => "Unknown",
        }
    }
}

} // verus!
