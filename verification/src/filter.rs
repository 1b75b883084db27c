//! Level filter for the dashboard: a five-position cycle that decides which
//! severities are highlighted.  Filtering is visual only; it never evicts data
//! from the buffer.

use vstd::prelude::*;

use crate::types::LogLevel;

verus! {

/// The level filter cycles All -> Error -> Warn -> Info -> Debug -> All.
#[derive(Debug, Clone, Copy, PartialEq, Eq, Structural)]
pub enum LevelFilter {
    All,
    Error,
    Warn,
    Info,
    Debug,
}

/// The successor of a filter in the fixed cycle.
pub open spec fn spec_next(f: LevelFilter) -> LevelFilter {
    match f {
        LevelFilter::All => LevelFilter::Error,
        LevelFilter::Error => LevelFilter::Warn,
        LevelFilter::Warn => LevelFilter::Info,
        LevelFilter::Info => LevelFilter::Debug,
        LevelFilter::Debug => LevelFilter::All,
    }
}

/// Whether a line of severity `level` passes the filter `f`: everything
/// passes `All`, and otherwise exactly the matching severity passes.
pub open spec fn spec_matches(f: LevelFilter, level: LogLevel) -> bool {
    match f {
        LevelFilter::All => true,
        LevelFilter::Error => level is Error,
        LevelFilter::Warn => level is Warn,
        LevelFilter::Info => level is Info,
        LevelFilter::Debug => level is Debug,
    }
}

impl LevelFilter {
    /// Step to the next filter in the cycle.
    pub fn next(&self) -> (r: Self)
        ensures
            r == spec_next(*self),
    {
        match self {
            LevelFilter::All => LevelFilter::Error,
            LevelFilter::Error => LevelFilter::Warn,
            LevelFilter::Warn => LevelFilter::Info,
            LevelFilter::Info => LevelFilter::Debug,
            LevelFilter::Debug => LevelFilter::All,
        }
    }

    /// Display label of the filter.
    pub fn label(&self) -> (r: &'static str)
        ensures
            *self is All ==> r@ == "ALL"@,
            *self is Error ==> r@ == "ERROR"@,
            *self is Warn ==> r@ == "WARN"@,
            *self is Info ==> r@ == "INFO"@,
            *self is Debug ==> r@ == "DEBUG"@,
    {
        match self {
            LevelFilter::All => "ALL",
            LevelFilter::Error => "ERROR",
            LevelFilter::Warn => "WARN",
            LevelFilter::Info => "INFO",
            LevelFilter::Debug => "DEBUG",
        }
    }

    /// Whether a line of severity `level` passes this filter.
    pub fn matches(&self, level: &LogLevel) -> (r: bool)
        ensures
            r == spec_matches(*self, *level),
            r == (*self is All || level_of_filter(*self) == Some(*level)),
    {
        match self {
            LevelFilter::All => true,
            LevelFilter::Error => matches!(level, LogLevel::Error),
            LevelFilter::Warn => matches!(level, LogLevel::Warn),
            LevelFilter::Info => matches!(level, LogLevel::Info),
            LevelFilter::Debug => matches!(level, LogLevel::Debug),
        }
    }
}

/// The single severity a non-`All` filter selects.
pub open spec fn level_of_filter(f: LevelFilter) -> Option<LogLevel> {
    match f {
        LevelFilter::All => None,
        LevelFilter::Error => Some(LogLevel::Error),
        LevelFilter::Warn => Some(LogLevel::Warn),
        LevelFilter::Info => Some(LogLevel::Info),
        LevelFilter::Debug => Some(LogLevel::Debug),
    }
}

/// The filter cycle has period five: stepping five times returns to the
/// starting filter, whichever it was.
pub proof fn lemma_filter_cycle_period_five(f: LevelFilter)
    ensures
        spec_next(spec_next(spec_next(spec_next(spec_next(f))))) == f,
{
}

} // verus!
