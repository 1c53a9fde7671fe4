//! Metric signal configuration.

use vstd::prelude::*;

verus! {

/// A span of time: whole seconds plus nanoseconds.
#[derive(Debug, Clone, Copy, PartialEq, Eq, Structural)]
pub struct Interval {
    pub secs: u64,
    pub nanos: u32,
}

impl Interval {
    /// An interval of whole seconds.
    pub fn from_secs(secs: u64) -> (r: Interval)
        ensures
            r == (Interval { secs, nanos: 0 }),
    {
        Interval { secs, nanos: 0 }
    }
}

/// Configuration of the metric signal.
#[derive(Debug, Clone)]
pub struct MetricsConfig {
    /// Time between two exports of the collected metrics.
    pub export_interval: Interval,
}

impl MetricsConfig {
    /// The export interval used when none is configured: one second.
    pub fn default_export_interval() -> (r: Interval)
        ensures
            r == (Interval { secs: 1, nanos: 0 }),
    {
        Interval::from_secs(1)
    }

    /// True for the configuration that `default` builds.
    pub open spec fn is_default(self) -> bool {
        self.export_interval == (Interval { secs: 1, nanos: 0 })
    }
}

impl Default for MetricsConfig {
    fn default() -> (r: Self)
        ensures
            r.is_default(),
    {
        MetricsConfig { export_interval: MetricsConfig::default_export_interval() }
    }
}

} // verus!
