use nyxs_owl::backtest::{execute_trades, validate_backtest_input, PositionType, TradeSpan};
use nyxs_owl::types::{NyxsOwlError, Signal};

#[test]
fn test_backtest_mismatched_data() {
    let prices = vec![100.0, 102.0];
    let signals = vec![Signal::Buy, Signal::Hold, Signal::Sell];
    let result = validate_backtest_input(prices.len(), signals.len());
    assert!(matches!(result, Err(NyxsOwlError::BacktestError(_))));
}

#[test]
fn test_backtest_empty_data() {
    let prices: Vec<f64> = vec![];
    let signals: Vec<Signal> = vec![];
    let result = validate_backtest_input(prices.len(), signals.len());
    assert!(matches!(result, Err(NyxsOwlError::BacktestError(_))));
}

#[test]
fn backtest_input_messages() {
    assert_eq!(
        validate_backtest_input(2, 1),
        Err(NyxsOwlError::BacktestError("Prices and signals must have the same length".to_string()))
    );
    assert_eq!(
        validate_backtest_input(0, 0),
        Err(NyxsOwlError::BacktestError("Cannot backtest with empty data".to_string()))
    );
    assert_eq!(validate_backtest_input(3, 3), Ok(()));
}

#[test]
fn trades_from_signal_series() {
    let signals = vec![
        Signal::Hold,
        Signal::Buy,
        Signal::Hold,
        Signal::Hold,
        Signal::Hold,
        Signal::Sell,
        Signal::Hold,
        Signal::Hold,
    ];
    let trades = execute_trades(&signals);
    assert_eq!(
        trades,
        vec![TradeSpan { entry_index: 1, exit_index: 5, position_type: PositionType::Long }]
    );
}

#[test]
fn trades_short_and_forced_close() {
    let signals = vec![Signal::Sell, Signal::Sell, Signal::Buy, Signal::Buy, Signal::Buy, Signal::Hold];
    let trades = execute_trades(&signals);
    assert_eq!(
        trades,
        vec![
            TradeSpan { entry_index: 0, exit_index: 2, position_type: PositionType::Short },
            TradeSpan { entry_index: 3, exit_index: 5, position_type: PositionType::Long },
        ]
    );
    assert!(execute_trades(&[]).is_empty());
    assert_eq!(
        execute_trades(&[Signal::Buy]),
        vec![TradeSpan { entry_index: 0, exit_index: 0, position_type: PositionType::Long }]
    );
}
