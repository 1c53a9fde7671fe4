//! Distributed tracing options.

use vstd::prelude::*;

verus! {

/// Whether spans are recorded.
#[derive(Debug, Clone)]
pub struct TracingOptions {
    pub enabled: bool,
}

impl TracingOptions {
    /// True for the options that `default` builds: tracing on.
    pub open spec fn is_default(self) -> bool {
        self.enabled
    }
}

impl Default for TracingOptions {
    fn default() -> (r: Self)
        ensures
            r.is_default(),
    {
        TracingOptions { enabled: true }
    }
}

} // verus!
