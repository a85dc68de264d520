//! Verbosity levels for log filtering.

use vstd::prelude::*;

verus! {

/// A verbosity level, ordered from quietest to noisiest.
///
/// `Silent` turns all logging off; the remaining five levels correspond
/// one-to-one to the levels of the `log` facade.
#[derive(Clone, Copy, Debug, PartialEq, Eq, Structural)]
pub enum Verbosity {
    /// No logging at all.
    Silent,
    /// Serious failures.
    Error,
    /// Hazardous situations.
    Warn,
    /// Useful information.
    Info,
    /// Development detail.
    Debug,
    /// Very fine-grained detail.
    Trace,
}

impl Verbosity {
    /// Numeric rank of this level; ranks are totally ordered and stable.
    pub open spec fn rank(self) -> u8 {
        match self {
            Verbosity::Silent => 0,
            Verbosity::Error => 1,
            Verbosity::Warn => 2,
            Verbosity::Info => 3,
            Verbosity::Debug => 4,
            Verbosity::Trace => 5,
        }
    }

    /// Four-letter tag written in each log line's prefix.
    pub open spec fn spec_id(self) -> Seq<char> {
        match self {
            Verbosity::Silent => "NONE"@,
            Verbosity::Error => "ERRO"@,
            Verbosity::Warn => "WARN"@,
            Verbosity::Info => "INFO"@,
            Verbosity::Debug => "DEBU"@,
            Verbosity::Trace => "TRAC"@,
        }
    }

    /// Glyph written after the tag in each log line's prefix.
    pub open spec fn spec_icon(self) -> Seq<char> {
        match self {
            Verbosity::Silent => " "@,
            Verbosity::Error => "\u{2717}"@,
            Verbosity::Warn => "\u{26A0}"@,
            Verbosity::Info => "\u{2139}"@,
            Verbosity::Debug => "\u{2699}"@,
            Verbosity::Trace => "\u{22EE}"@,
        }
    }

    /// The numeric rank of this level.
    pub fn as_num(&self) -> (n: u8)
        ensures
            n == self.rank(),
    {
        match self {
            Verbosity::Silent => 0,
            Verbosity::Error => 1,
            Verbosity::Warn => 2,
            Verbosity::Info => 3,
            Verbosity::Debug => 4,
            Verbosity::Trace => 5,
        }
    }

    /// The four-letter tag of this level.
    pub fn get_id(&self) -> (r: &'static str)
        ensures
            r@ == self.spec_id(),
    {
        match self {
            Verbosity::Silent => "NONE",
            Verbosity::Error => "ERRO",
            Verbosity::Warn => "WARN",
            Verbosity::Info => "INFO",
            Verbosity::Debug => "DEBU",
            Verbosity::Trace => "TRAC",
        }
    }

    /// The glyph of this level.
    pub fn get_icon(&self) -> (r: &'static str)
        ensures
            r@ == self.spec_icon(),
    {
        match self {
            Verbosity::Silent => " ",
            Verbosity::Error => "\u{2717}",
            Verbosity::Warn => "\u{26A0}",
            Verbosity::Info => "\u{2139}",
            Verbosity::Debug => "\u{2699}",
            Verbosity::Trace => "\u{22EE}",
        }
    }

    /// The verbosity of a `log` facade level.
    ///
    /// Relies on `log::Level`: its five variants are `Error`, `Warn`,
    /// `Info`, `Debug` and `Trace`, so no level maps to `Silent`.
    #[verifier::external_body]
    pub fn from_level(level: log::Level) -> (r: Verbosity)
        ensures
            r != Verbosity::Silent,
    {
        match level {
            log::Level::Error => Verbosity::Error,
            log::Level::Warn => Verbosity::Warn,
            log::Level::Info => Verbosity::Info,
            log::Level::Debug => Verbosity::Debug,
            log::Level::Trace => Verbosity::Trace,
        }
    }

    /// The `log` facade filter equivalent to this verbosity.
    ///
    /// Relies on `log::LevelFilter`: its variants are `Off` plus one per
    /// `log::Level` variant; `Silent` maps to `Off`.
    #[verifier::external_body]
    pub fn to_level_filter(&self) -> log::LevelFilter {
        match self {
            Verbosity::Silent => log::LevelFilter::Off,
            Verbosity::Error => log::LevelFilter::Error,
            Verbosity::Warn => log::LevelFilter::Warn,
            Verbosity::Info => log::LevelFilter::Info,
            Verbosity::Debug => log::LevelFilter::Debug,
            Verbosity::Trace => log::LevelFilter::Trace,
        }
    }
}

impl Default for Verbosity {
    /// The default level shows informational messages and above.
    fn default() -> (r: Self)
        ensures
            r == Verbosity::Info,
    {
        Verbosity::Info
    }
}

#[verifier::external_type_specification]
#[verifier::external_body]
pub struct ExLevel(log::Level);

#[verifier::external_type_specification]
#[verifier::external_body]
pub struct ExLevelFilter(log::LevelFilter);

} // verus!
