//! Market-data ingestion and distribution engine.
//!
//! The crate normalises upstream symbols, intervals and candle records,
//! keeps the latest price in a hub that fans it out to subscribers, and
//! decides, step by step, what a subscriber session and a streaming feed
//! do next.

pub mod calendar;
pub mod clock;
pub mod error;
pub mod feed;
pub mod handlers;
pub mod models;
pub mod services;
pub mod state;
pub mod text;
