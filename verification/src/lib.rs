//! Configuration, planning and validation logic of the Pulse observability
//! toolkit: service and exporter options, their defaults and builders, the
//! endpoints derived from them, and the checks applied to collector URIs.

pub mod attributes;
pub mod config;
pub mod error;
pub mod external;
pub mod log;
pub mod metrics;
pub mod opentelementry;
pub mod options;
pub mod text;
pub mod trace;
pub mod sdk;
