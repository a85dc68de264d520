//! The log sink: filtering and line formatting.

use vstd::prelude::*;
use crate::options::LoggerOptions;
use crate::text::{spec_dec, spec_pad_left, spec_pad_zeros, str_starts_with, pad_left, pad_zeros,
    u64_to_dec};
use crate::time_format::TimeFormat;
use crate::verbosity::Verbosity;

verus! {

/// Targets starting with this prefix always pass an include filter,
/// so the sink's own package is never silenced by one.
pub const PACKAGE_NAME: &'static str = "rogue_logging";

#[verifier::external_type_specification]
#[verifier::external_body]
pub struct ExSystemTime(std::time::SystemTime);

/// Relies on `std::time::SystemTime::now` for the moment the logger starts.
#[verifier::external_body]
fn system_time_now() -> std::time::SystemTime {
    std::time::SystemTime::now()
}

/// Relies on `std::time::SystemTime::elapsed`; a clock gone backwards
/// counts as zero elapsed time, as `Duration::default` is zero.
#[verifier::external_body]
fn elapsed_millis(start: &std::time::SystemTime) -> u64 {
    let elapsed = start.elapsed().unwrap_or_default();
    elapsed.as_millis() as u64
}

/// Relies on `chrono::Local::now` and chrono's formatter for the
/// local-time prefix.
#[verifier::external_body]
fn local_time_prefix() -> String {
    chrono::Local::now().format("%Y-%m-%d %H:%M:%S%.3f ").to_string()
}

/// Relies on `chrono::Utc::now` and chrono's formatter for the
/// UTC-time prefix.
#[verifier::external_body]
fn utc_time_prefix() -> String {
    chrono::Utc::now().format("%Y-%m-%d %H:%M:%S%.3fZ ").to_string()
}

/// Relies on `colored::Colorize::dimmed` and `ColoredString`'s `Display`:
/// with styling off the text passes through unchanged, and with styling
/// on it sits between a style prefix and a reset suffix. A message that
/// itself holds the escape character can have the style re-applied
/// inside it, so the guarantee is stated away from that case.
#[verifier::external_body]
fn dim_text(message: &str) -> (r: String)
    ensures
        !message@.contains('\u{1B}') ==> exists|pre: Seq<char>, post: Seq<char>|
            r@ == pre + message@ + post,
{
    colored::Colorize::dimmed(message).to_string()
}

/// The configured time format, or the default when unset.
pub open spec fn time_format_or_default(options: LoggerOptions) -> TimeFormat {
    match options.log_time_format {
        Some(t) => t,
        None => TimeFormat::Local,
    }
}

/// The configured verbosity threshold, or the default when unset.
pub open spec fn verbosity_or_default(options: LoggerOptions) -> Verbosity {
    match options.verbosity {
        Some(v) => v,
        None => Verbosity::Info,
    }
}

/// Whether the target starts with at least one of the filters.
pub open spec fn starts_with_any(target: Seq<char>, filters: Seq<String>) -> bool {
    exists|i: int| 0 <= i < filters.len() && (#[trigger] filters[i])@.is_prefix_of(target)
}

/// Whether a record with this target is dropped by the configured
/// include and exclude filters.
pub open spec fn spec_excluded_by_target(options: LoggerOptions, target: Seq<char>) -> bool {
    ||| (options.log_exclude_filters matches Some(f) && starts_with_any(target, f@))
    ||| (options.log_include_filters matches Some(f) && !starts_with_any(target, f@)
        && !PACKAGE_NAME@.is_prefix_of(target))
}

/// The elapsed-time prefix for `ms` milliseconds: whole seconds
/// right-aligned to four characters, a dot, three fractional digits,
/// and a trailing space.
pub open spec fn spec_elapsed(ms: nat) -> Seq<char> {
    spec_pad_left(spec_dec(ms / 1000), 4) + "."@ + spec_pad_zeros(spec_dec(ms % 1000), 3) + " "@
}

/// A line prefix: the time text, the level tag, a space, and the icon.
pub open spec fn spec_prefix(time: Seq<char>, verbosity: Verbosity) -> Seq<char> {
    time + verbosity.spec_id() + " "@ + verbosity.spec_icon()
}

/// Render `ms` milliseconds as the elapsed-time prefix.
fn format_elapsed(ms: u64) -> (r: String)
    ensures
        r@ == spec_elapsed(ms as nat),
{
    let secs = u64_to_dec(ms / 1000);
    let frac = u64_to_dec(ms % 1000);
    let mut r = pad_left(secs.as_str(), 4);
    r.append(".");
    let frac_padded = pad_zeros(frac.as_str(), 3);
    r.append(frac_padded.as_str());
    r.append(" ");
    proof {
        assert(r@ =~= spec_elapsed(ms as nat));
    }
    r
}

fn starts_with_any_exec(target: &str, filters: &Vec<String>) -> (r: bool)
    ensures
        r == starts_with_any(target@, filters@),
{
    let mut i: usize = 0;
    while i < filters.len()
        invariant
            i <= filters@.len(),
            forall|j: int| 0 <= j < i ==> !(#[trigger] filters@[j])@.is_prefix_of(target@),
        decreases filters@.len() - i,
    {
        if str_starts_with(target, filters[i].as_str()) {
            return true;
        }
        i += 1;
    }
    false
}

/// Dim messages at debug level and below; livelier levels pass through.
/// Styling never changes the message text itself.
pub fn format_message(verbosity: Verbosity, message: String) -> (r: String)
    ensures
        verbosity.rank() < Verbosity::Debug.rank() ==> r == message,
        !message@.contains('\u{1B}') ==> exists|pre: Seq<char>, post: Seq<char>|
            r@ == pre + message@ + post,
{
    if verbosity.as_num() >= 4 {
        dim_text(message.as_str())
    } else {
        proof {
            assert(exists|pre: Seq<char>, post: Seq<char>| message@ == pre + message@ + post) by {
                assert(message@ =~= Seq::<char>::empty() + message@ + Seq::<char>::empty());
            }
        }
        message
    }
}

/// A terminal log sink: formats lines and filters records by target
/// and verbosity.
pub struct Logger {
    /// The configuration the logger was created with.
    pub options: LoggerOptions,
    /// When the logger was created; the origin of elapsed-time prefixes.
    pub start: std::time::SystemTime,
}

impl Logger {
    /// Create a logger from options, starting its elapsed-time clock now.
    pub fn from_options(options: LoggerOptions) -> (r: Logger)
        ensures
            r.options == options,
    {
        Logger { options, start: system_time_now() }
    }

    /// The timestamp text for one line; empty when the format is `Off`.
    pub fn format_time(&self) -> (r: String)
        ensures
            time_format_or_default(self.options) == TimeFormat::Off ==> r@ == Seq::<
                char,
            >::empty(),
            time_format_or_default(self.options) == TimeFormat::Elapsed ==> exists|ms: nat|
                r@ == spec_elapsed(ms),
    {
        let format = match self.options.log_time_format {
            Some(t) => t,
            None => TimeFormat::Local,
        };
        match format {
            TimeFormat::Local => local_time_prefix(),
            TimeFormat::Utc => utc_time_prefix(),
            TimeFormat::Elapsed => {
                let ms = elapsed_millis(&self.start);
                let r = format_elapsed(ms);
                proof {
                    assert(exists|m: nat| r@ == spec_elapsed(m)) by {
                        assert(r@ == spec_elapsed(ms as nat));
                    }
                }
                r
            },
            TimeFormat::Off => String::new(),
        }
    }

    /// The prefix of one line: some timestamp text, then the level tag,
    /// a space, and the icon; the timestamp is empty for `Off` and an
    /// elapsed-time rendering for `Elapsed`.
    pub fn format_prefix(&self, verbosity: Verbosity) -> (r: String)
        ensures
            exists|t: Seq<char>| r@ == spec_prefix(t, verbosity),
            time_format_or_default(self.options) == TimeFormat::Off ==> r@ == spec_prefix(
                Seq::empty(),
                verbosity,
            ),
            time_format_or_default(self.options) == TimeFormat::Elapsed ==> exists|ms: nat|
                r@ == spec_prefix(spec_elapsed(ms), verbosity),
    {
        let time = self.format_time();
        let ghost time_text = time@;
        let mut r = time;
        r.append(verbosity.get_id());
        r.append(" ");
        r.append(verbosity.get_icon());
        proof {
            assert(r@ =~= spec_prefix(time_text, verbosity));
            if time_format_or_default(self.options) == TimeFormat::Off {
                assert(r@ =~= spec_prefix(Seq::empty(), verbosity));
            }
            if time_format_or_default(self.options) == TimeFormat::Elapsed {
                let ms = choose|ms: nat| time_text == spec_elapsed(ms);
                assert(r@ == spec_prefix(spec_elapsed(ms), verbosity));
            }
        }
        r
    }

    /// One full log line: the prefix, a space, and the (possibly dimmed)
    /// message; dimming never changes the message text itself.
    pub fn format_log(&self, verbosity: Verbosity, message: String) -> (r: String)
        ensures
            verbosity.rank() < Verbosity::Debug.rank() ==> exists|t: Seq<char>|
                r@ == spec_prefix(t, verbosity) + " "@ + message@,
            !message@.contains('\u{1B}') ==> exists|t: Seq<char>, pre: Seq<char>, post: Seq<char>|
                r@ == spec_prefix(t, verbosity) + " "@ + pre + message@ + post,
            time_format_or_default(self.options) == TimeFormat::Off && verbosity.rank()
                < Verbosity::Debug.rank() ==> r@ == spec_prefix(Seq::empty(), verbosity) + " "@
                + message@,
    {
        let ghost message_text = message@;
        let prefix = self.format_prefix(verbosity);
        let ghost prefix_text = prefix@;
        let styled = format_message(verbosity, message);
        let mut r = prefix;
        r.append(" ");
        r.append(styled.as_str());
        proof {
            let t0 = choose|t: Seq<char>| prefix_text == spec_prefix(t, verbosity);
            assert(r@ =~= prefix_text + " "@ + styled@);
            if verbosity.rank() < 4 {
                assert(styled@ == message_text);
                assert(r@ =~= spec_prefix(t0, verbosity) + " "@ + message_text);
            }
            if !message_text.contains('\u{1B}') {
                let (pre, post) = choose|pre: Seq<char>, post: Seq<char>|
                    styled@ == pre + message_text + post;
                assert(r@ =~= spec_prefix(t0, verbosity) + " "@ + pre + message_text + post);
            }
            if time_format_or_default(self.options) == TimeFormat::Off && verbosity.rank() < 4 {
                assert(r@ =~= spec_prefix(Seq::empty(), verbosity) + " "@ + message_text);
            }
        }
        r
    }

    /// Whether a record with this target is dropped by the filters.
    pub fn exclude_by_target(&self, target: &str) -> (r: bool)
        ensures
            r == spec_excluded_by_target(self.options, target@),
    {
        if let Some(exclude_filters) = &self.options.log_exclude_filters {
            if starts_with_any_exec(target, exclude_filters) {
                return true;
            }
        }
        if let Some(include_filters) = &self.options.log_include_filters {
            if !starts_with_any_exec(target, include_filters) && !str_starts_with(
                target,
                PACKAGE_NAME,
            ) {
                return true;
            }
        }
        false
    }

    /// Whether a record at this verbosity is noisier than the threshold.
    pub fn exclude_by_verbosity(&self, verbosity: Verbosity) -> (r: bool)
        ensures
            r == (verbosity.rank() > verbosity_or_default(self.options).rank()),
    {
        let threshold = match self.options.verbosity {
            Some(v) => v,
            None => Verbosity::default(),
        };
        verbosity.as_num() > threshold.as_num()
    }

    /// Whether a record with this target and verbosity is logged.
    pub fn enabled(&self, target: &str, verbosity: Verbosity) -> (r: bool)
        ensures
            r == (!spec_excluded_by_target(self.options, target@) && verbosity.rank()
                <= verbosity_or_default(self.options).rank()),
    {
        !self.exclude_by_target(target) && !self.exclude_by_verbosity(verbosity)
    }
}

} // verus!
