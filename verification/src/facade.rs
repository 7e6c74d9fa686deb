//! The levels of the `log` facade, and how they meet the severities.

use vstd::prelude::*;
use crate::errors::Error;
use crate::format::{formatted, LogFormat};
use crate::logger::Logger;
use crate::severity::Severity;
use crate::transport::Transport;

verus! {

/// The level of a record of the facade, the most serious first.
#[derive(Clone, Copy, Debug, PartialEq, Eq, Structural)]
pub enum Level {
    Error,
    Warn,
    Info,
    Debug,
    Trace,
}

/// The most verbose level that is let through, or `Off` for none.
#[derive(Clone, Copy, Debug, PartialEq, Eq, Structural)]
pub enum LevelFilter {
    Off,
    Error,
    Warn,
    Info,
    Debug,
    Trace,
}

impl Level {
    /// The place of the level in the order of verbosity, from one.
    pub open spec fn spec_rank(self) -> u8 {
        match self {
            Level::Error => 1,
            Level::Warn => 2,
            Level::Info => 3,
            Level::Debug => 4,
            Level::Trace => 5,
        }
    }

    /// The severity that a record of the level is sent with. There is no
    /// severity below debug, so a trace is sent as debug.
    pub open spec fn spec_severity(self) -> Severity {
        match self {
            Level::Error => Severity::LOG_ERR,
            Level::Warn => Severity::LOG_WARNING,
            Level::Info => Severity::LOG_INFO,
            Level::Debug => Severity::LOG_DEBUG,
            Level::Trace => Severity::LOG_DEBUG,
        }
    }

    /// The place of the level in the order of verbosity, from one.
    #[verifier::when_used_as_spec(spec_rank)]
    pub fn rank(self) -> (rank: u8)
        ensures
            rank == self.spec_rank(),
    {
        match self {
            Level::Error => 1,
            Level::Warn => 2,
            Level::Info => 3,
            Level::Debug => 4,
            Level::Trace => 5,
        }
    }

    /// The severity that a record of the level is sent with.
    #[verifier::when_used_as_spec(spec_severity)]
    pub fn severity(self) -> (severity: Severity)
        ensures
            severity == self.spec_severity(),
    {
        match self {
            Level::Error => Severity::LOG_ERR,
            Level::Warn => Severity::LOG_WARNING,
            Level::Info => Severity::LOG_INFO,
            Level::Debug => Severity::LOG_DEBUG,
            Level::Trace => Severity::LOG_DEBUG,
        }
    }
}

impl LevelFilter {
    /// The place of the filter in the order of verbosity: zero for `Off`,
    /// else the rank of the level that it is named after.
    pub open spec fn spec_rank(self) -> u8 {
        match self {
            LevelFilter::Off => 0,
            LevelFilter::Error => 1,
            LevelFilter::Warn => 2,
            LevelFilter::Info => 3,
            LevelFilter::Debug => 4,
            LevelFilter::Trace => 5,
        }
    }

    /// The place of the filter in the order of verbosity.
    #[verifier::when_used_as_spec(spec_rank)]
    pub fn rank(self) -> (rank: u8)
        ensures
            rank == self.spec_rank(),
    {
        match self {
            LevelFilter::Off => 0,
            LevelFilter::Error => 1,
            LevelFilter::Warn => 2,
            LevelFilter::Info => 3,
            LevelFilter::Debug => 4,
            LevelFilter::Trace => 5,
        }
    }
}

/// Whether a record of `level` is let through: it is, where the level is
/// no more verbose than either maximum.
pub open spec fn level_enabled(level: Level, max: LevelFilter, static_max: LevelFilter) -> bool {
    level.spec_rank() <= max.spec_rank() && level.spec_rank() <= static_max.spec_rank()
}

/// Whether a record of `level` is let through, given the maximum that is
/// set at the moment and the one that the build fixed.
pub fn enabled_at(level: Level, max: LevelFilter, static_max: LevelFilter) -> (enabled: bool)
    ensures
        enabled == level_enabled(level, max, static_max),
{
    level.rank() <= max.rank() && level.rank() <= static_max.rank()
}

/// An error is sent as `err`, a warning as `warning`, information as
/// `info`, and both debug and trace as `debug`. A more verbose level is
/// let through only where every less verbose one is, and nothing is where
/// a maximum is `Off`.
pub proof fn lemma_levels(level: Level, other: Level, max: LevelFilter, static_max: LevelFilter)
    ensures
        Level::Error.spec_severity() == Severity::LOG_ERR,
        Level::Warn.spec_severity() == Severity::LOG_WARNING,
        Level::Info.spec_severity() == Severity::LOG_INFO,
        Level::Debug.spec_severity() == Severity::LOG_DEBUG,
        Level::Trace.spec_severity() == Severity::LOG_DEBUG,
        level_enabled(level, max, static_max) && other.spec_rank() <= level.spec_rank()
            ==> level_enabled(other, max, static_max),
        max == LevelFilter::Off || static_max == LevelFilter::Off ==> !level_enabled(
            level,
            max,
            static_max,
        ),
        level_enabled(level, LevelFilter::Trace, LevelFilter::Trace),
{
}

/// Reads `log::max_level`, the maximum that the process has set for the
/// facade at the moment. Nothing is claimed of the result: it is whatever
/// was set last.
#[verifier::external_body]
fn current_max_level() -> LevelFilter {
    match log::max_level() {
        log::LevelFilter::Off => LevelFilter::Off,
        log::LevelFilter::Error => LevelFilter::Error,
        log::LevelFilter::Warn => LevelFilter::Warn,
        log::LevelFilter::Info => LevelFilter::Info,
        log::LevelFilter::Debug => LevelFilter::Debug,
        log::LevelFilter::Trace => LevelFilter::Trace,
    }
}

/// Reads `log::STATIC_MAX_LEVEL`, the maximum that the build of the facade
/// has fixed. Nothing is claimed of the result: it depends on how the
/// facade was built.
#[verifier::external_body]
fn static_max_level() -> LevelFilter {
    match log::STATIC_MAX_LEVEL {
        log::LevelFilter::Off => LevelFilter::Off,
        log::LevelFilter::Error => LevelFilter::Error,
        log::LevelFilter::Warn => LevelFilter::Warn,
        log::LevelFilter::Info => LevelFilter::Info,
        log::LevelFilter::Debug => LevelFilter::Debug,
        log::LevelFilter::Trace => LevelFilter::Trace,
    }
}

/// Whether the facade lets a record of `level` through at the moment.
pub fn enabled(level: Level) -> bool {
    enabled_at(level, current_max_level(), static_max_level())
}

impl<W: Transport, F> Logger<W, F> {
    /// Sends `message` with the severity that stands for `level`.
    pub fn log<T>(&mut self, level: Level, message: T) -> (result: Result<(), Error>) where
        F: LogFormat<T>,

        ensures
            final(self).formatter == old(self).formatter,
            formatted(
                &old(self).formatter,
                &old(self).backend,
                &final(self).backend,
                level.spec_severity(),
                message,
                result,
            ),
    {
        match level {
            Level::Error => self.err(message),
            Level::Warn => self.warning(message),
            Level::Info => self.info(message),
            Level::Debug => self.debug(message),
            Level::Trace => self.debug(message),
        }
    }
}

} // verus!
