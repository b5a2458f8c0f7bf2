//! Canonical value types shared by every component.

pub mod kline;
pub mod price;
