//! Strategy backtesting over daily bars.

pub mod engine;
pub mod portfolio;
pub mod result;
pub mod strategies;
pub mod strategy;
