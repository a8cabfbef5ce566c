//! Pulls metered-energy readings from a utility-data API window by window and
//! turns each response into uniform time-series points for storage.
//!
//! Timestamps are Unix seconds (UTC). Readings and prices are carried as the
//! IEEE-754 bit patterns of their `f64` values, so that the points hold
//! exactly what the provider sent.
pub mod loader;
pub mod models;
pub mod request;
pub mod window;
