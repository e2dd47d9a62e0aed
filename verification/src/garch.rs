//! Configuration of the GARCH volatility strategy: model types, checked
//! construction and the presets.

use vstd::prelude::*;
use crate::float_bits::{
    f64_le, f64_lt, le, lt, F0_01, F0_015, F0_02, F0_03, F0_15, F0_2, F0_25, F0_3, F0_5, F1_2, F1_3,
    F1_5, F2_0, ONE, ZERO,
};
use crate::types::NyxsOwlError;

verus! {

/// GARCH model types
#[derive(Debug, Clone, Copy, PartialEq, Eq, Structural)]
pub enum GarchType {
    /// Standard GARCH(p,q) model
    Standard,
    /// GARCH-M (GARCH in Mean) model
    GarchM,
    /// EGARCH (Exponential GARCH) model
    Egarch,
    /// GJR-GARCH (Threshold GARCH) model
    GjrGarch,
}

/// Configuration for GARCH volatility strategy. Thresholds, the target
/// volatility and the risk factor are doubles held as bit patterns.
#[derive(Debug, Clone)]
pub struct GarchStrategyConfig {
    /// GARCH model type
    pub model_type: GarchType,
    /// GARCH order (p parameter)
    pub garch_order: usize,
    /// ARCH order (q parameter)
    pub arch_order: usize,
    /// Volatility threshold for signal generation (multiple of average volatility)
    pub volatility_threshold: u64,
    /// Signal threshold for trading decisions
    pub signal_threshold: u64,
    /// Minimum number of data points required
    pub min_data_points: usize,
    /// Lookback window for volatility estimation
    pub volatility_window: usize,
    /// Use volatility targeting for position sizing
    pub use_volatility_targeting: bool,
    /// Target volatility level (annualized)
    pub target_volatility: u64,
    /// Risk adjustment factor
    pub risk_adjustment: u64,
}

/// The first parameter rule that the arguments of
/// `GarchStrategyConfig::new` break, as its message, or none.
pub open spec fn garch_problem(
    garch_order: usize,
    arch_order: usize,
    volatility_threshold: u64,
    signal_threshold: u64,
    min_data_points: usize,
) -> Option<Seq<char>> {
    if garch_order == 0 || garch_order > 5 {
        Some("GARCH order must be between 1 and 5"@)
    } else if arch_order == 0 || arch_order > 5 {
        Some("ARCH order must be between 1 and 5"@)
    } else if f64_le(volatility_threshold, ZERO) {
        Some("Volatility threshold must be positive"@)
    } else if f64_le(signal_threshold, ZERO) || f64_lt(ONE, signal_threshold) {
        Some("Signal threshold must be between 0 and 1"@)
    } else if min_data_points < 50 {
        Some("Minimum data points must be at least 50"@)
    } else {
        None
    }
}

impl GarchStrategyConfig {
    /// Create a new GARCH strategy configuration: both orders in 1..=5, a
    /// positive volatility threshold, a signal threshold in (0, 1] and at
    /// least 50 data points. The volatility window is 30, volatility
    /// targeting on at 20%, and the risk adjustment 1.
    pub fn new(
        model_type: GarchType,
        garch_order: usize,
        arch_order: usize,
        volatility_threshold: u64,
        signal_threshold: u64,
        min_data_points: usize,
    ) -> (r: Result<Self, NyxsOwlError>)
        ensures
            garch_problem(garch_order, arch_order, volatility_threshold, signal_threshold, min_data_points)
                is None ==> r == Ok::<Self, NyxsOwlError>((GarchStrategyConfig {
                model_type,
                garch_order,
                arch_order,
                volatility_threshold,
                signal_threshold,
                min_data_points,
                volatility_window: 30,
                use_volatility_targeting: true,
                target_volatility: F0_2,
                risk_adjustment: ONE,
            })),
            garch_problem(garch_order, arch_order, volatility_threshold, signal_threshold, min_data_points)
                matches Some(m) ==> (r matches Err(NyxsOwlError::InvalidParameter(e)) && e@ == m),
    {
        if garch_order == 0 || garch_order > 5 {
            return Err(NyxsOwlError::InvalidParameter(String::from_str("GARCH order must be between 1 and 5")));
        }
        if arch_order == 0 || arch_order > 5 {
            return Err(NyxsOwlError::InvalidParameter(String::from_str("ARCH order must be between 1 and 5")));
        }
        if le(volatility_threshold, ZERO) {
            return Err(NyxsOwlError::InvalidParameter(String::from_str("Volatility threshold must be positive")));
        }
        if le(signal_threshold, ZERO) || lt(ONE, signal_threshold) {
            return Err(NyxsOwlError::InvalidParameter(String::from_str("Signal threshold must be between 0 and 1")));
        }
        if min_data_points < 50 {
            return Err(NyxsOwlError::InvalidParameter(String::from_str("Minimum data points must be at least 50")));
        }
        Ok(Self {
            model_type,
            garch_order,
            arch_order,
            volatility_threshold,
            signal_threshold,
            min_data_points,
            volatility_window: 30,
            use_volatility_targeting: true,
            target_volatility: F0_2,
            risk_adjustment: ONE,
        })
    }

    /// Create conservative volatility configuration
    pub fn conservative() -> (r: Self)
        ensures
            r == (GarchStrategyConfig {
                model_type: GarchType::Standard,
                garch_order: 1,
                arch_order: 1,
                volatility_threshold: F2_0,
                signal_threshold: F0_03,
                min_data_points: 150,
                volatility_window: 50,
                use_volatility_targeting: true,
                target_volatility: F0_15,
                risk_adjustment: F0_5,
            }),
    {
        Self {
            model_type: GarchType::Standard,
            garch_order: 1,
            arch_order: 1,
            volatility_threshold: F2_0,
            signal_threshold: F0_03,
            min_data_points: 150,
            volatility_window: 50,
            use_volatility_targeting: true,
            target_volatility: F0_15,
            risk_adjustment: F0_5,
        }
    }

    /// Create aggressive volatility configuration
    pub fn aggressive() -> (r: Self)
        ensures
            r == (GarchStrategyConfig {
                model_type: GarchType::GjrGarch,
                garch_order: 2,
                arch_order: 2,
                volatility_threshold: F1_2,
                signal_threshold: F0_01,
                min_data_points: 75,
                volatility_window: 20,
                use_volatility_targeting: true,
                target_volatility: F0_3,
                risk_adjustment: F1_5,
            }),
    {
        Self {
            model_type: GarchType::GjrGarch,
            garch_order: 2,
            arch_order: 2,
            volatility_threshold: F1_2,
            signal_threshold: F0_01,
            min_data_points: 75,
            volatility_window: 20,
            use_volatility_targeting: true,
            target_volatility: F0_3,
            risk_adjustment: F1_5,
        }
    }

    /// Create volatility trading configuration
    pub fn volatility_trading() -> (r: Self)
        ensures
            r == (GarchStrategyConfig {
                model_type: GarchType::Egarch,
                garch_order: 1,
                arch_order: 2,
                volatility_threshold: F1_3,
                signal_threshold: F0_015,
                min_data_points: 100,
                volatility_window: 25,
                use_volatility_targeting: false,
                target_volatility: F0_25,
                risk_adjustment: ONE,
            }),
    {
        Self {
            model_type: GarchType::Egarch,
            garch_order: 1,
            arch_order: 2,
            volatility_threshold: F1_3,
            signal_threshold: F0_015,
            min_data_points: 100,
            volatility_window: 25,
            use_volatility_targeting: false,
            target_volatility: F0_25,
            risk_adjustment: ONE,
        }
    }
}

impl Default for GarchStrategyConfig {
    fn default() -> (r: Self)
        ensures
            r == (GarchStrategyConfig {
                model_type: GarchType::Standard,
                garch_order: 1,
                arch_order: 1,
                volatility_threshold: F1_5,
                signal_threshold: F0_02,
                min_data_points: 100,
                volatility_window: 30,
                use_volatility_targeting: true,
                target_volatility: F0_2,
                risk_adjustment: ONE,
            }),
    {
        Self {
            model_type: GarchType::Standard,
            garch_order: 1,
            arch_order: 1,
            volatility_threshold: F1_5,
            signal_threshold: F0_02,
            min_data_points: 100,
            volatility_window: 30,
            use_volatility_targeting: true,
            target_volatility: F0_2,
            risk_adjustment: ONE,
        }
    }
}

/// Which GARCH parameters are accepted: both orders between 1 and 5, a
/// volatility threshold not at or below zero, a signal threshold not at or
/// below zero nor above one, and at least 50 data points (comparisons with
/// NaN are false, as for doubles).
pub proof fn lemma_garch_accepted(
    garch_order: usize,
    arch_order: usize,
    volatility_threshold: u64,
    signal_threshold: u64,
    min_data_points: usize,
)
    ensures
        garch_problem(garch_order, arch_order, volatility_threshold, signal_threshold, min_data_points) is None
            <==> 1 <= garch_order <= 5 && 1 <= arch_order <= 5 && !f64_le(volatility_threshold, ZERO)
            && !f64_le(signal_threshold, ZERO) && !f64_lt(ONE, signal_threshold) && min_data_points >= 50,
{
}

} // verus!
