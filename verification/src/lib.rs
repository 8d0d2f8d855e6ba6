//! Connectivity engine for the Kraken spot exchange: request signing,
//! admission control, error classification, and streaming-frame codecs,
//! with machine-checked contracts.

pub mod client;
pub mod error;
pub mod json;
pub mod models;
pub mod parse;
pub mod rate_limiter;
pub mod roundtrip;
pub mod signing;
pub mod text;
pub mod ws_client;
pub mod ws_models;
