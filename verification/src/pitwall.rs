//! The telemetry engine: schema, packets, frame adapters, the driver's
//! reader loop, rate control and the connection on top of them.

pub mod schema;
pub mod types;
pub mod adapters;
pub mod frame_derive;
pub mod frame_adapter;
pub mod session;
pub mod driver;
pub mod stream;
pub mod connection;
pub mod provider;
pub mod fanout;
pub mod ibt;
