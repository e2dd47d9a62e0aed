//! The checks an ARIMA forecast makes of its inputs before the model is
//! fitted and of the values the model gives back, and how forecasting errors are reported in the crate-wide error
//! type. The data are doubles held as bit patterns.

use vstd::prelude::*;
use crate::float_bits::{is_finite, is_finite_bits};
use crate::types::NyxsOwlError;

verus! {

/// Errors of the forecasting pipeline, before they are reported.
#[derive(Debug)]
pub enum InternalForecastError {
    /// The forecast itself failed or produced unusable values.
    ArimaError(String),
    /// The input data were unusable.
    InputError(String),
    /// The underlying model library failed.
    ModelError(String),
}

impl From<InternalForecastError> for NyxsOwlError {
    /// Forecast and model failures become strategy errors, input problems
    /// data errors, each message behind its label.
    fn from(err: InternalForecastError) -> (r: Self)
        ensures
            match err {
                InternalForecastError::ArimaError(s) => r matches NyxsOwlError::StrategyError(m)
                    && m@ == "ARIMA forecasting error: "@ + s@,
                InternalForecastError::InputError(s) => r matches NyxsOwlError::DataError(m)
                    && m@ == "Input data error for forecast: "@ + s@,
                InternalForecastError::ModelError(s) => r matches NyxsOwlError::StrategyError(m)
                    && m@ == "Underlying model error: "@ + s@,
            },
    {
        match err {
            InternalForecastError::ArimaError(s) => {
                let mut m = String::from_str("ARIMA forecasting error: ");
                m.append(s.as_str());
                NyxsOwlError::StrategyError(m)
            },
            InternalForecastError::InputError(s) => {
                let mut m = String::from_str("Input data error for forecast: ");
                m.append(s.as_str());
                NyxsOwlError::DataError(m)
            },
            InternalForecastError::ModelError(s) => {
                let mut m = String::from_str("Underlying model error: ");
                m.append(s.as_str());
                NyxsOwlError::StrategyError(m)
            },
        }
    }
}

impl vstd::std_specs::convert::FromSpecImpl<InternalForecastError> for NyxsOwlError {
    open spec fn obeys_from_spec() -> bool {
        false
    }

    open spec fn from_spec(v: InternalForecastError) -> Self {
        arbitrary()
    }
}

/// Some value of `data` is infinite or NaN.
pub open spec fn has_non_finite(data: Seq<u64>) -> bool {
    exists|i: int| 0 <= i < data.len() && !is_finite_bits(#[trigger] data[i])
}

/// The message of the input problem that the forecast reports, if any:
/// no data or no timestamps, lengths that differ, or (when anything is
/// to be forecast) a value that is not finite.
pub open spec fn forecast_input_problem(data: Seq<u64>, timestamps_len: nat, periods_to_forecast: nat) -> Option<Seq<char>> {
    if data.len() == 0 || timestamps_len == 0 {
        Some("Input data or timestamps slice is empty."@)
    } else if data.len() != timestamps_len {
        Some("Data and timestamps lengths do not match."@)
    } else if periods_to_forecast > 0 && has_non_finite(data) {
        Some("Input data contains non-finite values."@)
    } else {
        None
    }
}

/// Checks the inputs of a forecast: `Err` with the input problem, reported
/// as a data error; otherwise `Ok(false)` when nothing is to be forecast
/// (the forecast is then empty) and `Ok(true)` when the model is to be fitted.
pub fn check_forecast_inputs(data: &[u64], timestamps_len: usize, periods_to_forecast: usize) -> (r: Result<bool, NyxsOwlError>)
    ensures
        forecast_input_problem(data@, timestamps_len as nat, periods_to_forecast as nat) matches Some(m) ==> (
            r matches Err(NyxsOwlError::DataError(e)) && e@ == "Input data error for forecast: "@ + m),
        forecast_input_problem(data@, timestamps_len as nat, periods_to_forecast as nat) is None ==> r
            == Ok::<bool, NyxsOwlError>(periods_to_forecast > 0),
{
    if data.len() == 0 || timestamps_len == 0 {
        return Err(NyxsOwlError::from(InternalForecastError::InputError(String::from_str("Input data or timestamps slice is empty."))));
    }
    if data.len() != timestamps_len {
        return Err(NyxsOwlError::from(InternalForecastError::InputError(String::from_str("Data and timestamps lengths do not match."))));
    }
    if periods_to_forecast == 0 {
        return Ok(false);
    }
    let n = data.len();
    let mut i: usize = 0;
    while i < n
        invariant
            n == data@.len(),
            n > 0,
            n == timestamps_len,
            periods_to_forecast > 0,
            i <= n,
            forall|j: int| 0 <= j < i ==> is_finite_bits(#[trigger] data@[j]),
        decreases n - i,
    {
        if !is_finite(data[i]) {
            assert(!is_finite_bits(data@[i as int]));
            return Err(NyxsOwlError::from(InternalForecastError::InputError(String::from_str("Input data contains non-finite values."))));
        }
        i = i + 1;
    }
    Ok(true)
}

/// Checks what the model forecast (doubles as bit patterns): a forecast
/// holding an infinite or NaN value is refused, as a strategy error
/// "ARIMA forecasting error: Forecast resulted in NaN or Infinite values.";
/// a forecast of finite values is accepted.
pub fn check_forecast_output(forecasts: &[u64]) -> (r: Result<(), NyxsOwlError>)
    ensures
        has_non_finite(forecasts@) ==> (r matches Err(NyxsOwlError::StrategyError(e))
            && e@ == "ARIMA forecasting error: "@ + "Forecast resulted in NaN or Infinite values."@),
        !has_non_finite(forecasts@) ==> r is Ok,
{
    let n = forecasts.len();
    let mut i: usize = 0;
    while i < n
        invariant
            n == forecasts@.len(),
            i <= n,
            forall|j: int| 0 <= j < i ==> is_finite_bits(#[trigger] forecasts@[j]),
        decreases n - i,
    {
        if !is_finite(forecasts[i]) {
            assert(!is_finite_bits(forecasts@[i as int]));
            return Err(NyxsOwlError::from(InternalForecastError::ArimaError(String::from_str("Forecast resulted in NaN or Infinite values."))));
        }
        i = i + 1;
    }
    Ok(())
}

} // verus!
