//! The Pulse SDK: its options, the builder, and the plans from which the
//! runtime sets up logging, tracing, metrics export and MCAP recording.

pub mod builder;
pub mod options;
pub mod setup;
pub mod telemetry;
pub mod tracing;
