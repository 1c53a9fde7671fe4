//! Trace signal configuration.

use vstd::prelude::*;

verus! {

/// Configuration of the trace signal.
#[derive(Debug, Clone)]
pub struct TraceConfig {
    /// The most verbose level of spans that are exported.
    pub level: TraceLevel,
}

/// Span verbosity, from least to most verbose.
#[derive(Debug, Clone, Copy, PartialEq, Eq, Structural)]
pub enum TraceLevel {
    Error,
    Warn,
    Info,
    Debug,
    Trace,
}

impl Default for TraceLevel {
    fn default() -> (r: Self)
        ensures
            r == TraceLevel::Info,
    {
        TraceLevel::Info
    }
}

impl TraceConfig {
    /// True for the configuration that `default` builds.
    pub open spec fn is_default(self) -> bool {
        self.level == TraceLevel::Info
    }
}

impl Default for TraceConfig {
    fn default() -> (r: Self)
        ensures
            r.is_default(),
    {
        TraceConfig { level: TraceLevel::default() }
    }
}

} // verus!
