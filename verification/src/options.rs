//! Options for the logger.

use vstd::prelude::*;
use crate::time_format::TimeFormat;
use crate::verbosity::Verbosity;

verus! {

/// Options for [`crate::Logger`].
#[derive(Clone, Debug)]
pub struct LoggerOptions {
    /// Level of logs to display.
    ///
    /// Default: `info`
    pub verbosity: Option<Verbosity>,

    /// Time format to use in logs.
    ///
    /// Default: `local`
    pub log_time_format: Option<TimeFormat>,

    /// Include only logs from specific packages.
    pub log_include_filters: Option<Vec<String>>,

    /// Exclude logs from specific packages.
    pub log_exclude_filters: Option<Vec<String>>,
}

impl Default for LoggerOptions {
    /// All options start unset.
    fn default() -> (r: Self)
        ensures
            r.verbosity is None,
            r.log_time_format is None,
            r.log_include_filters is None,
            r.log_exclude_filters is None,
    {
        LoggerOptions {
            verbosity: None,
            log_time_format: None,
            log_include_filters: None,
            log_exclude_filters: None,
        }
    }
}

} // verus!
