//! Fluent builder for creating logger instances.

use vstd::prelude::*;
use crate::logger::Logger;
use crate::options::LoggerOptions;
use crate::time_format::TimeFormat;
use crate::verbosity::Verbosity;

verus! {

/// The list a filter option holds, or the empty list when it is unset.
pub open spec fn filters_or_empty(o: Option<Vec<String>>) -> Seq<String> {
    match o {
        Some(f) => f@,
        None => Seq::empty(),
    }
}

/// Fluent builder for creating and configuring a [`Logger`].
pub struct LoggerBuilder {
    /// Options accumulated so far.
    pub options: LoggerOptions,
    /// Whether the caller intends to register the logger process-wide.
    pub init: bool,
}

impl LoggerBuilder {
    /// Create a new builder with default options.
    pub fn new() -> (r: Self)
        ensures
            r.options.verbosity is None,
            r.options.log_time_format is None,
            r.options.log_include_filters is None,
            r.options.log_exclude_filters is None,
            r.init,
    {
        LoggerBuilder { options: LoggerOptions::default(), init: true }
    }

    /// Set all options from a [`LoggerOptions`] struct.
    pub fn with_options(self, options: LoggerOptions) -> (r: Self)
        ensures
            r.options == options,
            r.init == self.init,
    {
        LoggerBuilder { options, init: self.init }
    }

    /// Set the verbosity level.
    pub fn with_verbosity(self, verbosity: Verbosity) -> (r: Self)
        ensures
            r.options.verbosity == Some(verbosity),
            r.options.log_time_format == self.options.log_time_format,
            r.options.log_include_filters == self.options.log_include_filters,
            r.options.log_exclude_filters == self.options.log_exclude_filters,
            r.init == self.init,
    {
        let opts = self.options;
        LoggerBuilder {
            options: LoggerOptions {
                verbosity: Some(verbosity),
                log_time_format: opts.log_time_format,
                log_include_filters: opts.log_include_filters,
                log_exclude_filters: opts.log_exclude_filters,
            },
            init: self.init,
        }
    }

    /// Set the time format.
    pub fn with_time_format(self, time_format: TimeFormat) -> (r: Self)
        ensures
            r.options.log_time_format == Some(time_format),
            r.options.verbosity == self.options.verbosity,
            r.options.log_include_filters == self.options.log_include_filters,
            r.options.log_exclude_filters == self.options.log_exclude_filters,
            r.init == self.init,
    {
        let opts = self.options;
        LoggerBuilder {
            options: LoggerOptions {
                verbosity: opts.verbosity,
                log_time_format: Some(time_format),
                log_include_filters: opts.log_include_filters,
                log_exclude_filters: opts.log_exclude_filters,
            },
            init: self.init,
        }
    }

    /// Add a package name filter to include.
    pub fn with_include_filter(self, include_filter: String) -> (r: Self)
        ensures
            r.options.log_include_filters matches Some(f) && f@
                == filters_or_empty(self.options.log_include_filters).push(include_filter),
            r.options.verbosity == self.options.verbosity,
            r.options.log_time_format == self.options.log_time_format,
            r.options.log_exclude_filters == self.options.log_exclude_filters,
            r.init == self.init,
    {
        let opts = self.options;
        let mut filters = match opts.log_include_filters {
            Some(f) => f,
            None => Vec::new(),
        };
        filters.push(include_filter);
        LoggerBuilder {
            options: LoggerOptions {
                verbosity: opts.verbosity,
                log_time_format: opts.log_time_format,
                log_include_filters: Some(filters),
                log_exclude_filters: opts.log_exclude_filters,
            },
            init: self.init,
        }
    }

    /// Add a package name filter to exclude.
    pub fn with_exclude_filter(self, exclude_filter: String) -> (r: Self)
        ensures
            r.options.log_exclude_filters matches Some(f) && f@
                == filters_or_empty(self.options.log_exclude_filters).push(exclude_filter),
            r.options.verbosity == self.options.verbosity,
            r.options.log_time_format == self.options.log_time_format,
            r.options.log_include_filters == self.options.log_include_filters,
            r.init == self.init,
    {
        let opts = self.options;
        let mut filters = match opts.log_exclude_filters {
            Some(f) => f,
            None => Vec::new(),
        };
        filters.push(exclude_filter);
        LoggerBuilder {
            options: LoggerOptions {
                verbosity: opts.verbosity,
                log_time_format: opts.log_time_format,
                log_include_filters: opts.log_include_filters,
                log_exclude_filters: Some(filters),
            },
            init: self.init,
        }
    }

    /// Mark the logger for process-wide registration.
    pub fn with_init(self) -> (r: Self)
        ensures
            r.options == self.options,
            r.init,
    {
        LoggerBuilder { options: self.options, init: true }
    }

    /// Skip process-wide registration.
    pub fn without_init(self) -> (r: Self)
        ensures
            r.options == self.options,
            !r.init,
    {
        LoggerBuilder { options: self.options, init: false }
    }

    /// Build the configured [`Logger`].
    ///
    /// Registration with the `log` facade is a process-wide side effect and
    /// is left to the embedding program.
    pub fn create(self) -> (r: Logger)
        ensures
            r.options == self.options,
    {
        Logger::from_options(self.options)
    }
}

impl Default for LoggerBuilder {
    /// Same as [`LoggerBuilder::new`].
    fn default() -> (r: Self)
        ensures
            r.options.verbosity is None,
            r.options.log_time_format is None,
            r.options.log_include_filters is None,
            r.options.log_exclude_filters is None,
            r.init,
    {
        LoggerBuilder::new()
    }
}

} // verus!
