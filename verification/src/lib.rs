//! Telemetry acquisition and streaming for a sim-racing coach: the variable
//! schema and frame decoding, the reader-loop decisions of the driver, rate
//! control, and the client-side configuration and event types around them.

pub mod analysis;
pub mod api;
pub mod config;
pub mod events;
pub mod handlers;
pub mod pitwall;
pub mod telemetry;
