//! The options of a Pulse instance, gathered.

use vstd::prelude::*;
use super::{FoxgloveOptions, LoggingOptions, ProfilingOptions, TelemetryOptions, TracingOptions};

verus! {

/// All options of a Pulse instance.
#[derive(Debug, Clone)]
pub struct PulseOptions {
    pub logging: LoggingOptions,
    pub foxglove: FoxgloveOptions,
    pub telemetry: TelemetryOptions,
    pub profiling: ProfilingOptions,
    pub tracing: TracingOptions,
}

impl PulseOptions {
    /// True for the options that `new` builds: every part at its default.
    pub open spec fn is_default(self) -> bool {
        &&& self.logging.is_default()
        &&& self.foxglove.is_default()
        &&& self.telemetry.is_default()
        &&& self.profiling.is_default()
        &&& self.tracing.is_default()
    }

    /// Default options.
    pub fn new() -> (r: Self)
        ensures
            r.is_default(),
    {
        Self::default()
    }

    /// Sets the logging options.
    pub fn with_logging(self, logging: LoggingOptions) -> (r: Self)
        ensures
            r == (PulseOptions { logging, ..self }),
    {
        PulseOptions { logging, ..self }
    }

    /// Sets the telemetry options.
    pub fn with_telemetry(self, telemetry: TelemetryOptions) -> (r: Self)
        ensures
            r == (PulseOptions { telemetry, ..self }),
    {
        PulseOptions { telemetry, ..self }
    }

    /// Sets the MCAP recording options.
    pub fn with_foxglove(self, foxglove: FoxgloveOptions) -> (r: Self)
        ensures
            r == (PulseOptions { foxglove, ..self }),
    {
        PulseOptions { foxglove, ..self }
    }

    /// Sets the profiling options.
    pub fn with_profiling(self, profiling: ProfilingOptions) -> (r: Self)
        ensures
            r == (PulseOptions { profiling, ..self }),
    {
        PulseOptions { profiling, ..self }
    }

    /// Sets the tracing options.
    pub fn with_tracing(self, tracing: TracingOptions) -> (r: Self)
        ensures
            r == (PulseOptions { tracing, ..self }),
    {
        PulseOptions { tracing, ..self }
    }
}

impl Default for PulseOptions {
    fn default() -> (r: Self)
        ensures
            r.is_default(),
    {
        PulseOptions {
            logging: LoggingOptions::default(),
            foxglove: FoxgloveOptions::default(),
            telemetry: TelemetryOptions::default(),
            profiling: ProfilingOptions::default(),
            tracing: TracingOptions::default(),
        }
    }
}

} // verus!
