//! Configuration of the exponential smoothing forecasting strategy: checked
//! construction and the presets.

use vstd::prelude::*;
use crate::float_bits::{f64_lt, in_unit_interval, is_in_unit_interval, lt, F0_015, F0_02, F0_03, F0_1, F0_3, F0_5, ZERO};
use crate::types::NyxsOwlError;

verus! {

/// Configuration for Exponential Smoothing forecasting strategy. The
/// smoothing parameters and the threshold are doubles held as bit patterns.
#[derive(Debug, Clone)]
pub struct ExponentialSmoothingConfig {
    /// Alpha parameter for level smoothing (0.0 to 1.0)
    pub alpha: u64,
    /// Beta parameter for trend smoothing (0.0 to 1.0, None for simple exponential smoothing)
    pub beta: Option<u64>,
    /// Gamma parameter for seasonal smoothing (0.0 to 1.0, None for non-seasonal)
    pub gamma: Option<u64>,
    /// Number of seasonal periods (e.g., 12 for monthly data with yearly seasonality)
    pub seasonal_periods: Option<usize>,
    /// Forecast horizon (number of periods ahead to predict)
    pub forecast_horizon: usize,
    /// Minimum percentage change threshold to generate signals
    pub threshold: u64,
    /// Minimum number of data points required for forecasting
    pub min_data_points: usize,
    /// Rolling window size for generating forecasts
    pub window_size: usize,
}

/// The first parameter rule that the arguments of
/// `ExponentialSmoothingConfig::new` break, as its message, or none.
pub open spec fn smoothing_problem(
    alpha: u64,
    beta: Option<u64>,
    gamma: Option<u64>,
    seasonal_periods: Option<usize>,
    forecast_horizon: usize,
    threshold: u64,
    min_data_points: usize,
    window_size: usize,
) -> Option<Seq<char>> {
    if !in_unit_interval(alpha) {
        Some("Alpha must be between 0.0 and 1.0"@)
    } else if beta matches Some(b) && !in_unit_interval(b) {
        Some("Beta must be between 0.0 and 1.0"@)
    } else if gamma matches Some(g) && !in_unit_interval(g) {
        Some("Gamma must be between 0.0 and 1.0"@)
    } else if seasonal_periods matches Some(sp) && sp < 2 {
        Some("Seasonal periods must be at least 2"@)
    } else if forecast_horizon == 0 {
        Some("Forecast horizon must be greater than 0"@)
    } else if f64_lt(threshold, ZERO) {
        Some("Threshold must be non-negative"@)
    } else if min_data_points < 10 {
        Some("Minimum data points must be at least 10"@)
    } else if window_size < min_data_points {
        Some("Window size must be at least as large as minimum data points"@)
    } else {
        None
    }
}

impl ExponentialSmoothingConfig {
    /// Create a new configuration with validation: each smoothing parameter
    /// given must lie in [0, 1], seasonal periods be at least 2, the horizon
    /// positive, the threshold non-negative, at least 10 data points be
    /// required and the window hold at least that many.
    pub fn new(
        alpha: u64,
        beta: Option<u64>,
        gamma: Option<u64>,
        seasonal_periods: Option<usize>,
        forecast_horizon: usize,
        threshold: u64,
        min_data_points: usize,
        window_size: usize,
    ) -> (r: Result<Self, NyxsOwlError>)
        ensures
            smoothing_problem(alpha, beta, gamma, seasonal_periods, forecast_horizon, threshold,
                min_data_points, window_size) is None ==> r == Ok::<Self, NyxsOwlError>(
                (ExponentialSmoothingConfig {
                    alpha,
                    beta,
                    gamma,
                    seasonal_periods,
                    forecast_horizon,
                    threshold,
                    min_data_points,
                    window_size,
                })),
            smoothing_problem(alpha, beta, gamma, seasonal_periods, forecast_horizon, threshold,
                min_data_points, window_size) matches Some(m) ==> (r matches Err(
                NyxsOwlError::InvalidParameter(e)) && e@ == m),
    {
        if !is_in_unit_interval(alpha) {
            return Err(NyxsOwlError::InvalidParameter(String::from_str("Alpha must be between 0.0 and 1.0")));
        }
        if let Some(b) = beta {
            if !is_in_unit_interval(b) {
                return Err(NyxsOwlError::InvalidParameter(String::from_str("Beta must be between 0.0 and 1.0")));
            }
        }
        if let Some(g) = gamma {
            if !is_in_unit_interval(g) {
                return Err(NyxsOwlError::InvalidParameter(String::from_str("Gamma must be between 0.0 and 1.0")));
            }
        }
        if let Some(sp) = seasonal_periods {
            if sp < 2 {
                return Err(NyxsOwlError::InvalidParameter(String::from_str("Seasonal periods must be at least 2")));
            }
        }
        if forecast_horizon == 0 {
            return Err(NyxsOwlError::InvalidParameter(String::from_str("Forecast horizon must be greater than 0")));
        }
        if lt(threshold, ZERO) {
            return Err(NyxsOwlError::InvalidParameter(String::from_str("Threshold must be non-negative")));
        }
        if min_data_points < 10 {
            return Err(NyxsOwlError::InvalidParameter(String::from_str("Minimum data points must be at least 10")));
        }
        if window_size < min_data_points {
            return Err(NyxsOwlError::InvalidParameter(
                String::from_str("Window size must be at least as large as minimum data points"),
            ));
        }
        Ok(Self {
            alpha,
            beta,
            gamma,
            seasonal_periods,
            forecast_horizon,
            threshold,
            min_data_points,
            window_size,
        })
    }

    /// Create conservative configuration (lower alpha, no trend/seasonality)
    pub fn conservative() -> (r: Self)
        ensures
            r == (ExponentialSmoothingConfig {
                alpha: F0_1,
                beta: None,
                gamma: None,
                seasonal_periods: None,
                forecast_horizon: 1,
                threshold: F0_03,
                min_data_points: 30,
                window_size: 100,
            }),
    {
        Self {
            alpha: F0_1,
            beta: None,
            gamma: None,
            seasonal_periods: None,
            forecast_horizon: 1,
            threshold: F0_03,
            min_data_points: 30,
            window_size: 100,
        }
    }

    /// Create moderate configuration (with trend but no seasonality)
    pub fn moderate() -> (r: Self)
        ensures
            r == (ExponentialSmoothingConfig {
                alpha: F0_3,
                beta: Some(F0_1),
                gamma: None,
                seasonal_periods: None,
                forecast_horizon: 1,
                threshold: F0_02,
                min_data_points: 20,
                window_size: 50,
            }),
    {
        Self {
            alpha: F0_3,
            beta: Some(F0_1),
            gamma: None,
            seasonal_periods: None,
            forecast_horizon: 1,
            threshold: F0_02,
            min_data_points: 20,
            window_size: 50,
        }
    }

    /// Create aggressive configuration (higher alpha, with trend)
    pub fn aggressive() -> (r: Self)
        ensures
            r == (ExponentialSmoothingConfig {
                alpha: F0_5,
                beta: Some(F0_3),
                gamma: None,
                seasonal_periods: None,
                forecast_horizon: 1,
                threshold: F0_015,
                min_data_points: 15,
                window_size: 30,
            }),
    {
        Self {
            alpha: F0_5,
            beta: Some(F0_3),
            gamma: None,
            seasonal_periods: None,
            forecast_horizon: 1,
            threshold: F0_015,
            min_data_points: 15,
            window_size: 30,
        }
    }

    /// Create seasonal configuration (with trend and seasonality): alpha
    /// 0.3, beta and gamma 0.1, a one period horizon, a 2% threshold, three
    /// full seasons of data required and a window of five seasons.
    pub fn seasonal(seasonal_periods: usize) -> (r: Result<Self, NyxsOwlError>)
        requires
            seasonal_periods * 5 <= usize::MAX,
        ensures
            smoothing_problem(F0_3, Some(F0_1), Some(F0_1), Some(seasonal_periods), 1, F0_02,
                (seasonal_periods * 3) as usize, (seasonal_periods * 5) as usize) is None
                ==> r == Ok::<Self, NyxsOwlError>((ExponentialSmoothingConfig {
                    alpha: F0_3,
                    beta: Some(F0_1),
                    gamma: Some(F0_1),
                    seasonal_periods: Some(seasonal_periods),
                    forecast_horizon: 1,
                    threshold: F0_02,
                    min_data_points: (seasonal_periods * 3) as usize,
                    window_size: (seasonal_periods * 5) as usize,
                })),
            smoothing_problem(F0_3, Some(F0_1), Some(F0_1), Some(seasonal_periods), 1, F0_02,
                (seasonal_periods * 3) as usize, (seasonal_periods * 5) as usize) matches Some(m)
                ==> (r matches Err(NyxsOwlError::InvalidParameter(e)) && e@ == m),
    {
        Self::new(
            F0_3,
            Some(F0_1),
            Some(F0_1),
            Some(seasonal_periods),
            1,
            F0_02,
            seasonal_periods * 3,
            seasonal_periods * 5,
        )
    }
}

impl Default for ExponentialSmoothingConfig {
    fn default() -> (r: Self)
        ensures
            r == (ExponentialSmoothingConfig {
                alpha: F0_3,
                beta: Some(F0_1),
                gamma: None,
                seasonal_periods: None,
                forecast_horizon: 1,
                threshold: F0_02,
                min_data_points: 20,
                window_size: 50,
            }),
    {
        Self {
            alpha: F0_3,
            beta: Some(F0_1),
            gamma: None,
            seasonal_periods: None,
            forecast_horizon: 1,
            threshold: F0_02,
            min_data_points: 20,
            window_size: 50,
        }
    }
}

/// Which exponential smoothing parameters are accepted: alpha, and beta and
/// gamma when given, in [0, 1]; seasonal periods, when given, at least 2; a
/// positive horizon; a threshold not below zero; at least 10 data points;
/// and a window at least as large as the data points required.
pub proof fn lemma_smoothing_accepted(
    alpha: u64,
    beta: Option<u64>,
    gamma: Option<u64>,
    seasonal_periods: Option<usize>,
    forecast_horizon: usize,
    threshold: u64,
    min_data_points: usize,
    window_size: usize,
)
    ensures
        smoothing_problem(alpha, beta, gamma, seasonal_periods, forecast_horizon, threshold, min_data_points,
            window_size) is None <==> {
            &&& in_unit_interval(alpha)
            &&& beta matches Some(b) ==> in_unit_interval(b)
            &&& gamma matches Some(g) ==> in_unit_interval(g)
            &&& seasonal_periods matches Some(sp) ==> sp >= 2
            &&& forecast_horizon > 0
            &&& !f64_lt(threshold, ZERO)
            &&& min_data_points >= 10
            &&& window_size >= min_data_points
        },
{
}

} // verus!
