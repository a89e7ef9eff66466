//! Client-side logic for querying MEV-Boost relay data APIs across many relays:
//! query encoding, response normalisation, fan-out aggregation and correlation.
pub use client::Client;

pub mod aggregate;
pub mod client;
pub mod correlate;
pub mod error;
pub mod json;
pub mod normalize;
pub mod query;
pub mod registry;
pub mod slots;
pub mod text;
pub mod types;
