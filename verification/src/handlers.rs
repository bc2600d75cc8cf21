//! Event handlers: what each of them decides on an event.

pub mod counter;
pub mod lap;
pub mod log;

pub use counter::CounterHandler;
pub use lap::LapHandler;
pub use log::LogHandler;
