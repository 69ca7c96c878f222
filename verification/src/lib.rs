//! Verified core of a terminal stock-analysis tool: market data types,
//! ticker formatting, decimal money arithmetic, indicators, a backtest
//! engine, the TUI state machine and the configuration logic.

pub mod backtest;
pub mod config;
pub mod data;
pub mod dates;
pub mod decimal;
pub mod error;
pub mod indicator;
pub mod keyed;
pub mod market;
pub mod ohlcv;
pub mod period;
pub mod portfolio;
pub mod session;
pub mod symbol;
pub mod text;
pub mod tui;
