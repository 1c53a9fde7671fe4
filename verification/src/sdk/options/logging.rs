//! Console logging options.

use vstd::prelude::*;

verus! {

/// Named time formats of log timestamps.
#[derive(Debug, Clone, Copy, PartialEq, Eq, Structural)]
pub enum TimeFormat {
    RFC3339,
    RFC3339Nano,
    Kitchen,
    Stamp,
    Custom,
}

impl Default for TimeFormat {
    fn default() -> (r: Self)
        ensures
            r == TimeFormat::RFC3339,
    {
        TimeFormat::RFC3339
    }
}

/// Log output options.
#[derive(Debug, Clone)]
pub struct LogOptions {
    /// Prefix of every log line.
    pub prefix: String,
    /// Include caller info in logs.
    pub report_caller: bool,
    /// Include timestamps in logs.
    pub report_timestamp: bool,
    /// Named time format.
    pub time_format_key: TimeFormat,
    /// The format used when `time_format_key` is `Custom`.
    pub custom_format: String,
    /// Stack frames skipped to find the caller.
    pub caller_offset: i32,
}

/// The value of a flag that is on unless configured otherwise.
pub fn default_true() -> (r: bool)
    ensures
        r,
{
    true
}

/// The caller offset used when none is configured.
pub fn default_caller_offset() -> (r: i32)
    ensures
        r == 3,
{
    3
}

impl LogOptions {
    /// True for the options that `default` builds.
    pub open spec fn is_default(self) -> bool {
        &&& self.prefix@ == Seq::<char>::empty()
        &&& self.report_caller
        &&& self.report_timestamp
        &&& self.time_format_key == TimeFormat::RFC3339
        &&& self.custom_format@ == Seq::<char>::empty()
        &&& self.caller_offset == 3
    }
}

impl Default for LogOptions {
    fn default() -> (r: Self)
        ensures
            r.is_default(),
    {
        LogOptions {
            prefix: String::new(),
            report_caller: default_true(),
            report_timestamp: default_true(),
            time_format_key: TimeFormat::default(),
            custom_format: String::new(),
            caller_offset: default_caller_offset(),
        }
    }
}

/// Logging options.
#[derive(Debug, Clone)]
pub struct LoggingOptions {
    pub log: LogOptions,
}

impl LoggingOptions {
    /// True for the options that `default` builds.
    pub open spec fn is_default(self) -> bool {
        self.log.is_default()
    }
}

impl Default for LoggingOptions {
    fn default() -> (r: Self)
        ensures
            r.is_default(),
    {
        LoggingOptions { log: LogOptions::default() }
    }
}

} // verus!
