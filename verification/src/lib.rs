//! Conversion between the three denominations of a chain's native currency.

pub mod amount;
pub mod config;
pub mod convert;
pub mod error;
pub mod unit;

pub use config::{run, Config};
