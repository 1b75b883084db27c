//! A record projected for display: short time of day, severity, text, and a
//! flag separating agent status lines from captured output.

use vstd::prelude::*;

use crate::types::{timestamp_wf, DataView, LogLevel, LogMessage, LogSource, local_clock_hhmmss};

verus! {

/// Mathematical image of [`LogLine`].
pub ghost struct LineView {
    pub timestamp: Seq<char>,
    pub level: LogLevel,
    pub message: Seq<char>,
    pub source: LogSource,
    pub is_system: bool,
}

/// One line as the dashboard renders it.
#[derive(Debug, Clone)]
pub struct LogLine {
    pub timestamp: String,
    pub level: LogLevel,
    pub message: String,
    pub source: LogSource,
    pub is_system: bool,
}

impl View for LogLine {
    type V = LineView;

    open spec fn view(&self) -> LineView {
        LineView {
            timestamp: self.timestamp@,
            level: self.level,
            message: self.message@,
            source: self.source,
            is_system: self.is_system,
        }
    }
}

impl DeepView for LogLine {
    type V = LineView;

    open spec fn deep_view(&self) -> LineView {
        self@
    }
}

/// The display line a captured record projects to: the time of day is the
/// `HH:MM:SS` part of the RFC 3339 timestamp.
pub open spec fn line_of(m: DataView) -> LineView {
    LineView {
        timestamp: m.timestamp.subrange(11, 19),
        level: m.level,
        message: m.message,
        source: m.source,
        is_system: false,
    }
}

/// An agent status line with clock reading `ts` and text `message`.
pub open spec fn system_line(ts: Seq<char>, message: Seq<char>) -> LineView {
    LineView {
        timestamp: ts,
        level: LogLevel::Info,
        message,
        source: LogSource::Stdout,
        is_system: true,
    }
}

impl LogLine {
    /// Project a captured record for display.
    pub fn from_record(log: LogMessage) -> (r: LogLine)
        requires
            timestamp_wf(log@.data.timestamp),
        ensures
            r@ == line_of(log@.data),
    {
        LogLine {
            timestamp: log.data.timestamp.as_str().substring_char(11, 19).to_owned(),
            level: log.data.level,
            message: log.data.message,
            source: log.data.source,
            is_system: false,
        }
    }

    /// An agent status line, stamped with the local clock.
    pub fn system(message: String) -> (r: LogLine)
        ensures
            r@.message == message@,
            r@.is_system,
            r@.level is Info,
            r@.source is Stdout,
            r@.timestamp.len() == 8,
            r@ == system_line(r@.timestamp, message@),
    {
        LogLine {
            timestamp: local_clock_hhmmss(),
            level: LogLevel::Info,
            message,
            source: LogSource::Stdout,
            is_system: true,
        }
    }
}

} // verus!
