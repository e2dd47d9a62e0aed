use nyxs_owl::forecast_inputs::{check_forecast_inputs, check_forecast_output, InternalForecastError};
use nyxs_owl::forecast_utils::{percentage_change_to_signal, rolling_windows, validate_data, validate_dataframe};
use nyxs_owl::types::{NyxsOwlError, Signal};

fn names(v: &[&str]) -> Vec<String> {
    v.iter().map(|s| s.to_string()).collect()
}

#[test]
fn test_rolling_windows() {
    let data = vec![1, 2, 3, 4, 5];
    let windows: Vec<&[i32]> = rolling_windows(&data, 3);

    assert_eq!(windows.len(), 3);
    assert_eq!(windows[0], &[1, 2, 3]);
    assert_eq!(windows[1], &[2, 3, 4]);
    assert_eq!(windows[2], &[3, 4, 5]);
}

#[test]
fn test_validate_dataframe() {
    let columns = names(&["timestamp", "close", "volume"]);
    let height = 3;

    let result = validate_dataframe(height, &columns, &["close", "volume"], 2, "TestStrategy");
    assert!(result.is_ok());

    let result = validate_dataframe(height, &columns, &["missing"], 2, "TestStrategy");
    assert!(matches!(result, Err(NyxsOwlError::DataError(_))));

    let result = validate_dataframe(height, &columns, &["close"], 10, "TestStrategy");
    assert!(matches!(result, Err(NyxsOwlError::MissingData(_))));
}

#[test]
fn default_validate_data_success() {
    let columns = names(&["close", "volume"]);
    assert_eq!(validate_data("MockTestStrategy", &["close", "volume"], &columns, 5, 5), Ok(()));
}

#[test]
fn default_validate_data_missing_column() {
    let columns = names(&["close"]);
    match validate_data("MockTestStrategy", &["close", "volume"], &columns, 5, 5) {
        Err(NyxsOwlError::MissingData(msg)) => {
            assert!(msg.contains("Column 'volume' not found"));
        }
        _ => panic!("Expected MissingData error"),
    }
}

#[test]
fn default_validate_data_insufficient_rows() {
    let columns = names(&["close", "volume"]);
    match validate_data("MockTestStrategy", &["close", "volume"], &columns, 3, 10) {
        Err(NyxsOwlError::StrategyError(msg)) => {
            assert!(msg.contains("requires at least 10 data points, but got 3"));
        }
        _ => panic!("Expected StrategyError for insufficient rows"),
    }
}

#[test]
fn validate_messages_exact() {
    let columns = names(&["a", "b"]);
    assert_eq!(
        validate_dataframe(1, &columns, &["a", "z", "y"], 1, "S"),
        Err(NyxsOwlError::DataError(
            "S strategy requires column 'z', but it was not found. Available columns: [\"a\", \"b\"]".to_string()
        ))
    );
    assert_eq!(
        validate_dataframe(0, &columns, &["z"], 1, "S"),
        Err(NyxsOwlError::MissingData("S strategy requires at least 1 rows, got 0".to_string()))
    );
    assert_eq!(
        validate_data("M", &["x"], &columns, 100, 1),
        Err(NyxsOwlError::MissingData("Column 'x' not found".to_string()))
    );
    assert_eq!(
        validate_data("M", &[], &columns, 120, 1234),
        Err(NyxsOwlError::StrategyError("Insufficient data: M requires at least 1234 data points, but got 120".to_string()))
    );
}

#[test]
fn rolling_windows_edges() {
    let data = vec![1u8, 2];
    assert!(rolling_windows(&data, 3).is_empty());
    assert_eq!(rolling_windows(&data, 2), vec![&[1u8, 2][..]]);
    let empty_windows = rolling_windows(&data, 0);
    assert_eq!(empty_windows.len(), 3);
    assert!(empty_windows.iter().all(|w| w.is_empty()));
}

fn change_signal(pct: f64, threshold: f64) -> Signal {
    percentage_change_to_signal(pct.to_bits(), threshold.to_bits())
}

#[test]
fn test_percentage_change_to_signal() {
    let threshold = 0.02; // 2%

    assert_eq!(change_signal(0.03, threshold), Signal::Buy);
    assert_eq!(change_signal(-0.03, threshold), Signal::Sell);
    assert_eq!(change_signal(0.01, threshold), Signal::Hold);
    assert_eq!(change_signal(-0.01, threshold), Signal::Hold);
    assert_eq!(change_signal(0.02, threshold), Signal::Hold); // Exactly at threshold
}

#[test]
fn change_signal_edges_and_mirror() {
    assert_eq!(change_signal(-0.02, 0.02), Signal::Hold);
    assert_eq!(change_signal(f64::NAN, 0.02), Signal::Hold);
    assert_eq!(change_signal(0.5, f64::NAN), Signal::Hold);
    assert_eq!(change_signal(f64::INFINITY, 0.02), Signal::Buy);
    assert_eq!(change_signal(f64::NEG_INFINITY, 0.02), Signal::Sell);
    assert_eq!(change_signal(0.0, 0.0), Signal::Hold);
    assert_eq!(change_signal(-0.0, 0.0), Signal::Hold);
    // a negative threshold buys on both small rises and small falls
    assert_eq!(change_signal(-0.5, -1.0), Signal::Buy);
    assert_eq!(change_signal(0.5, -1.0), Signal::Buy);
    // with a non-negative threshold the opposite change gives the mirrored signal
    for &p in &[0.03, -0.03, 0.01, 0.0, 1e300, -1e-300] {
        let mirrored = match change_signal(p, 0.02) {
            Signal::Buy => Signal::Sell,
            Signal::Sell => Signal::Buy,
            Signal::Hold => Signal::Hold,
        };
        assert_eq!(change_signal(-p, 0.02), mirrored);
    }
}

fn bits(v: &[f64]) -> Vec<u64> {
    v.iter().map(|x| x.to_bits()).collect()
}

fn data_message(r: Result<bool, NyxsOwlError>) -> String {
    match r {
        Err(NyxsOwlError::DataError(m)) => m,
        other => panic!("expected a data error, got {:?}", other),
    }
}

#[test]
fn forecast_input_checks() {
    assert_eq!(
        data_message(check_forecast_inputs(&[], 0, 5)),
        "Input data error for forecast: Input data or timestamps slice is empty."
    );
    assert_eq!(
        data_message(check_forecast_inputs(&bits(&[1.0]), 0, 5)),
        "Input data error for forecast: Input data or timestamps slice is empty."
    );
    assert_eq!(
        data_message(check_forecast_inputs(&bits(&[1.0, 2.0]), 3, 5)),
        "Input data error for forecast: Data and timestamps lengths do not match."
    );
    // nothing to forecast: an empty forecast, even with a NaN in the data
    assert!(matches!(check_forecast_inputs(&bits(&[1.0, f64::NAN]), 2, 0), Ok(false)));
    assert_eq!(
        data_message(check_forecast_inputs(&bits(&[1.0, f64::NAN]), 2, 1)),
        "Input data error for forecast: Input data contains non-finite values."
    );
    assert_eq!(
        data_message(check_forecast_inputs(&bits(&[f64::NEG_INFINITY, 2.0]), 2, 1)),
        "Input data error for forecast: Input data contains non-finite values."
    );
    assert!(matches!(check_forecast_inputs(&bits(&[1.0, -0.0, 1e308, 5e-324]), 4, 3), Ok(true)));
}

#[test]
fn forecast_errors_reported_with_labels() {
    let e: NyxsOwlError = InternalForecastError::ArimaError("diverged".to_string()).into();
    assert!(matches!(e, NyxsOwlError::StrategyError(m) if m == "ARIMA forecasting error: diverged"));
    let e: NyxsOwlError = InternalForecastError::InputError("bad".to_string()).into();
    assert!(matches!(e, NyxsOwlError::DataError(m) if m == "Input data error for forecast: bad"));
    let e: NyxsOwlError = InternalForecastError::ModelError("fit".to_string()).into();
    assert!(matches!(e, NyxsOwlError::StrategyError(m) if m == "Underlying model error: fit"));
}

#[test]
fn forecast_output_must_be_finite() {
    let ok = vec![101.5f64.to_bits(), (-3.0f64).to_bits()];
    assert_eq!(check_forecast_output(&ok), Ok(()));
    assert_eq!(check_forecast_output(&[]), Ok(()));
    for bad in [f64::NAN, f64::INFINITY, f64::NEG_INFINITY] {
        let values = vec![1.0f64.to_bits(), bad.to_bits()];
        assert_eq!(
            check_forecast_output(&values),
            Err(NyxsOwlError::StrategyError(
                "ARIMA forecasting error: Forecast resulted in NaN or Infinite values.".to_string()
            ))
        );
    }
}
