//! Configuration for a telemetry client: an instrumentation key, the endpoint that
//! receives telemetry, and the longest time a batch may wait before it is sent.
pub mod config;
pub mod laws;
pub mod time;

pub use config::{Builder, Config, DefaultBuilder};
