//! MCAP recording options (for Foxglove Studio).

use vstd::prelude::*;

verus! {

/// Whether and where telemetry is recorded to an MCAP file.
#[derive(Debug, Clone)]
pub struct FoxgloveOptions {
    pub enabled: bool,
    /// Path of the MCAP file.
    pub mcap_path: String,
}

impl FoxgloveOptions {
    /// True for the options that `default` builds: recording off, no path.
    pub open spec fn is_default(self) -> bool {
        !self.enabled && self.mcap_path@ == Seq::<char>::empty()
    }

    /// Recording enabled to the file at `path`.
    pub fn new(path: &str) -> (r: Self)
        ensures
            r.enabled,
            r.mcap_path@ == path@,
    {
        FoxgloveOptions { enabled: true, mcap_path: path.to_owned() }
    }
}

impl Default for FoxgloveOptions {
    fn default() -> (r: Self)
        ensures
            r.is_default(),
    {
        FoxgloveOptions { enabled: false, mcap_path: String::new() }
    }
}

} // verus!
