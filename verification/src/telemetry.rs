//! Telemetry sources and the collector that bridges them to the event bus.

pub mod collector;
pub mod source;

pub use source::{TelemetrySourceConfig, TelemetrySourceError};
