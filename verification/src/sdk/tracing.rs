//! Decisions of the trace subscriber.

use vstd::prelude::*;

verus! {

/// The filter directive that keeps dependencies quiet: INFO and above, with
/// the exporter stack's own crates at WARN.
pub open spec fn quiet_trace_filter() -> Seq<char> {
    "info,opentelemetry=warn,opentelemetry_sdk=warn,h2=warn,tonic=warn,hyper=warn,tower=warn"@
}

/// The filter directive used when `RUST_LOG` gives none: every level when
/// all output is asked for, else `quiet_trace_filter`.
pub fn fallback_trace_filter(show_all: bool) -> (r: String)
    ensures
        r@ == (if show_all { "trace"@ } else { quiet_trace_filter() }),
{
    if show_all {
        "trace".to_owned()
    } else {
        "info,opentelemetry=warn,opentelemetry_sdk=warn,h2=warn,tonic=warn,hyper=warn,tower=warn".to_owned()
    }
}

} // verus!
