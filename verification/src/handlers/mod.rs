//! What the presentation layer decides from the library's values.

pub mod klines;
pub mod price;
pub mod ws;
