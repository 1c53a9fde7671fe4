//! Continuous profiling options (Pyroscope).

use vstd::prelude::*;

verus! {

/// Whether and where profiles are sent.
#[derive(Debug, Clone)]
pub struct ProfilingOptions {
    pub enabled: bool,
    pub server_address: String,
    pub basic_auth_user: String,
    pub basic_auth_password: String,
}

impl ProfilingOptions {
    /// True for the options that `default` builds: profiling off, towards a
    /// local Pyroscope server, without credentials.
    pub open spec fn is_default(self) -> bool {
        &&& !self.enabled
        &&& self.server_address@ == "http://localhost:4040"@
        &&& self.basic_auth_user@ == Seq::<char>::empty()
        &&& self.basic_auth_password@ == Seq::<char>::empty()
    }
}

impl Default for ProfilingOptions {
    fn default() -> (r: Self)
        ensures
            r.is_default(),
    {
        ProfilingOptions {
            enabled: false,
            server_address: "http://localhost:4040".to_owned(),
            basic_auth_user: String::new(),
            basic_auth_password: String::new(),
        }
    }
}

} // verus!
