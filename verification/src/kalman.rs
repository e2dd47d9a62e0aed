//! Configuration of the Kalman filter trading strategy: checked construction
//! and the presets.

use vstd::prelude::*;
use crate::float_bits::{
    f64_le, f64_lt, le, lt, F0_005, F0_01, F0_015, F0_02, F0_05, F0_1, F0_2, F0_5, F1_5, F1_8, F2_0,
    F2_5, ONE, ZERO,
};
use crate::types::NyxsOwlError;

verus! {

/// Configuration for Kalman Filter trading strategy. Variances and
/// thresholds are doubles held as bit patterns.
#[derive(Debug, Clone)]
pub struct KalmanStrategyConfig {
    /// Process noise variance (how much we expect the true state to change)
    pub process_noise: u64,
    /// Observation noise variance (measurement uncertainty)
    pub observation_noise: u64,
    /// Initial state uncertainty
    pub initial_uncertainty: u64,
    /// Signal threshold for trading decisions (percentage)
    pub signal_threshold: u64,
    /// Minimum number of data points required
    pub min_data_points: usize,
    /// Use trend change detection for signals
    pub use_trend_detection: bool,
    /// Lookback period for trend change detection
    pub trend_lookback: usize,
    /// Innovation threshold for regime change detection
    pub innovation_threshold: u64,
}

/// The first parameter rule that the arguments of
/// `KalmanStrategyConfig::new` break, as its message, or none.
pub open spec fn kalman_problem(
    process_noise: u64,
    observation_noise: u64,
    initial_uncertainty: u64,
    signal_threshold: u64,
    min_data_points: usize,
) -> Option<Seq<char>> {
    if f64_le(process_noise, ZERO) {
        Some("Process noise must be positive"@)
    } else if f64_le(observation_noise, ZERO) {
        Some("Observation noise must be positive"@)
    } else if f64_le(initial_uncertainty, ZERO) {
        Some("Initial uncertainty must be positive"@)
    } else if f64_le(signal_threshold, ZERO) || f64_lt(ONE, signal_threshold) {
        Some("Signal threshold must be between 0 and 1"@)
    } else if min_data_points < 10 {
        Some("Minimum data points must be at least 10"@)
    } else {
        None
    }
}

impl KalmanStrategyConfig {
    /// Create a new Kalman strategy configuration: the three variances must
    /// be positive (a NaN passes, as no comparison with it holds), the
    /// signal threshold in (0, 1] and at least 10 data points be required.
    /// Trend detection is on, with a lookback of 10 and an innovation
    /// threshold of 2.
    pub fn new(
        process_noise: u64,
        observation_noise: u64,
        initial_uncertainty: u64,
        signal_threshold: u64,
        min_data_points: usize,
    ) -> (r: Result<Self, NyxsOwlError>)
        ensures
            kalman_problem(process_noise, observation_noise, initial_uncertainty, signal_threshold,
                min_data_points) is None ==> r == Ok::<Self, NyxsOwlError>((KalmanStrategyConfig {
                process_noise,
                observation_noise,
                initial_uncertainty,
                signal_threshold,
                min_data_points,
                use_trend_detection: true,
                trend_lookback: 10,
                innovation_threshold: F2_0,
            })),
            kalman_problem(process_noise, observation_noise, initial_uncertainty, signal_threshold,
                min_data_points) matches Some(m) ==> (r matches Err(NyxsOwlError::InvalidParameter(e))
                && e@ == m),
    {
        if le(process_noise, ZERO) {
            return Err(NyxsOwlError::InvalidParameter(String::from_str("Process noise must be positive")));
        }
        if le(observation_noise, ZERO) {
            return Err(NyxsOwlError::InvalidParameter(String::from_str("Observation noise must be positive")));
        }
        if le(initial_uncertainty, ZERO) {
            return Err(NyxsOwlError::InvalidParameter(String::from_str("Initial uncertainty must be positive")));
        }
        if le(signal_threshold, ZERO) || lt(ONE, signal_threshold) {
            return Err(NyxsOwlError::InvalidParameter(String::from_str("Signal threshold must be between 0 and 1")));
        }
        if min_data_points < 10 {
            return Err(NyxsOwlError::InvalidParameter(String::from_str("Minimum data points must be at least 10")));
        }
        Ok(Self {
            process_noise,
            observation_noise,
            initial_uncertainty,
            signal_threshold,
            min_data_points,
            use_trend_detection: true,
            trend_lookback: 10,
            innovation_threshold: F2_0,
        })
    }

    /// Create conservative configuration for less aggressive trading
    pub fn conservative() -> (r: Self)
        ensures
            r == (KalmanStrategyConfig {
                process_noise: F0_005,
                observation_noise: F0_2,
                initial_uncertainty: F0_5,
                signal_threshold: F0_02,
                min_data_points: 100,
                use_trend_detection: true,
                trend_lookback: 20,
                innovation_threshold: F2_5,
            }),
    {
        Self {
            process_noise: F0_005,
            observation_noise: F0_2,
            initial_uncertainty: F0_5,
            signal_threshold: F0_02,
            min_data_points: 100,
            use_trend_detection: true,
            trend_lookback: 20,
            innovation_threshold: F2_5,
        }
    }

    /// Create aggressive configuration for more frequent trading
    pub fn aggressive() -> (r: Self)
        ensures
            r == (KalmanStrategyConfig {
                process_noise: F0_02,
                observation_noise: F0_05,
                initial_uncertainty: F2_0,
                signal_threshold: F0_005,
                min_data_points: 30,
                use_trend_detection: true,
                trend_lookback: 5,
                innovation_threshold: F1_5,
            }),
    {
        Self {
            process_noise: F0_02,
            observation_noise: F0_05,
            initial_uncertainty: F2_0,
            signal_threshold: F0_005,
            min_data_points: 30,
            use_trend_detection: true,
            trend_lookback: 5,
            innovation_threshold: F1_5,
        }
    }

    /// Create trend-focused configuration
    pub fn trend_focused() -> (r: Self)
        ensures
            r == (KalmanStrategyConfig {
                process_noise: F0_01,
                observation_noise: F0_1,
                initial_uncertainty: ONE,
                signal_threshold: F0_015,
                min_data_points: 60,
                use_trend_detection: true,
                trend_lookback: 15,
                innovation_threshold: F1_8,
            }),
    {
        Self {
            process_noise: F0_01,
            observation_noise: F0_1,
            initial_uncertainty: ONE,
            signal_threshold: F0_015,
            min_data_points: 60,
            use_trend_detection: true,
            trend_lookback: 15,
            innovation_threshold: F1_8,
        }
    }
}

impl Default for KalmanStrategyConfig {
    fn default() -> (r: Self)
        ensures
            r == (KalmanStrategyConfig {
                process_noise: F0_01,
                observation_noise: F0_1,
                initial_uncertainty: ONE,
                signal_threshold: F0_01,
                min_data_points: 50,
                use_trend_detection: true,
                trend_lookback: 10,
                innovation_threshold: F2_0,
            }),
    {
        Self {
            process_noise: F0_01,
            observation_noise: F0_1,
            initial_uncertainty: ONE,
            signal_threshold: F0_01,
            min_data_points: 50,
            use_trend_detection: true,
            trend_lookback: 10,
            innovation_threshold: F2_0,
        }
    }
}

/// Which Kalman parameters are accepted: the three variances not at or
/// below zero, a signal threshold not at or below zero nor above one, and
/// at least 10 data points (comparisons with NaN are false, as for
/// doubles).
pub proof fn lemma_kalman_accepted(
    process_noise: u64,
    observation_noise: u64,
    initial_uncertainty: u64,
    signal_threshold: u64,
    min_data_points: usize,
)
    ensures
        kalman_problem(process_noise, observation_noise, initial_uncertainty, signal_threshold, min_data_points)
            is None <==> !f64_le(process_noise, ZERO) && !f64_le(observation_noise, ZERO) && !f64_le(
            initial_uncertainty, ZERO) && !f64_le(signal_threshold, ZERO) && !f64_lt(ONE, signal_threshold)
            && min_data_points >= 10,
{
}

} // verus!
