//! One module for each upstream source.

pub mod ashare;
pub mod binance;
