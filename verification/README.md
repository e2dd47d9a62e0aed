# nyxs_owl

Building blocks of a financial analysis library, written in Verus: each
function of `src/` carries a contract that Verus proves, except the few
trusted items that call outside code (`src/outside.rs`, and `vec_capacity`
in `src/memory_optimized.rs`): their contracts are believed, not proved,
and each one's doc comment says what it claims.

- `src/` is the verified library: error taxonomy of the hybrid strategy
  framework, the strategy parameter store, strategy configurations and
  their validation rules, the input and output checks of a forecast,
  trade planning from signal series, the rows each walk-forward ARIMA
  forecast is fitted on (earlier rows only), signal combination by vote,
  regime smoothing, hybrid signals and features, and cache-conscious
  containers. Doubles are held as IEEE 754 bit
  patterns and compared through `float_bits`.
- `app/` is ordinary Rust on top of it: the floating point computations
  (backtest metrics, statistics, price time series), the weights checks
  that add doubles, error types with `std::error::Error`, and logging.
- `tests/` exercises the library from outside.
