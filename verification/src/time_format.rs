//! Time format options for log timestamps.

use vstd::prelude::*;

verus! {

/// Timestamp format for log output.
#[derive(Clone, Copy, Debug, PartialEq, Eq, Structural)]
pub enum TimeFormat {
    /// Local date and time in an ISO 8601 like format.
    ///
    /// Example: `2013-02-27 12:34:56`
    Local,
    /// UTC date and time in an ISO 8601 like format.
    ///
    /// Example: `2013-02-27 12:34:56Z`
    Utc,
    /// Elapsed time since program start in seconds with millisecond precision.
    ///
    /// Example: `30020.289`
    Elapsed,
    /// No timestamp.
    Off,
}

impl Default for TimeFormat {
    /// Local time is the default.
    fn default() -> (r: Self)
        ensures
            r == TimeFormat::Local,
    {
        TimeFormat::Local
    }
}

} // verus!
