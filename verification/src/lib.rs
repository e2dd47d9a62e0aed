//! Financial analysis building blocks, verified: the error taxonomy of the
//! hybrid strategy framework, the strategy parameter store, configurations
//! of the forecasting strategies and of the hybrid framework with their
//! validation rules, the input and output checks of a forecast, the rows
//! each walk-forward forecast is fitted on, trade planning from
//! signals, signal combination by vote, regime smoothing, signals and
//! features of the hybrid framework, and cache-conscious containers.
//!
//! Doubles (thresholds, weights, prices) are held as their IEEE 754 bit
//! patterns; `float_bits` says how they compare.

pub mod arima;
pub mod arima_config;
pub mod assoc;
pub mod backtest;
pub mod config;
pub mod copula;
pub mod ensemble;
pub mod error;
pub mod float_bits;
pub mod forecast_inputs;
pub mod forecast_utils;
pub mod garch;
pub mod kalman;
pub mod memory_optimized;
pub mod metadata;
mod outside;
pub mod regime;
pub mod signals;
pub mod smoothing;
pub mod strategy_config;
pub mod text;
pub mod types;
