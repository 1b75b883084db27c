//! Core record model: one captured line of child-process output, tagged with
//! project, source stream, severity and capture time.

use vstd::prelude::*;

use crate::text::{seq_contains, spec_trim_line_end, str_contains, trim_line_end};

verus! {

/// Severity of a captured line, inferred from its text.
#[derive(Debug, Clone, Copy, PartialEq, Eq, Structural)]
pub enum LogLevel {
    Info,
    Warn,
    Error,
    Debug,
}

impl LogLevel {
    /// Stable name of the level, as written into saved log files.
    pub fn name(&self) -> (r: &'static str)
        ensures
            *self is Info ==> r@ == "Info"@,
            *self is Warn ==> r@ == "Warn"@,
            *self is Error ==> r@ == "Error"@,
            *self is Debug ==> r@ == "Debug"@,
    {
        match self {
            LogLevel::Info => "Info",
            LogLevel::Warn => "Warn",
            LogLevel::Error => "Error",
            LogLevel::Debug => "Debug",
        }
    }
}

/// Which stream of the child process a line was read from.
#[derive(Debug, Clone, Copy, PartialEq, Eq, Structural)]
pub enum LogSource {
    Stdout,
    Stderr,
}

/// Mathematical image of [`LogData`].
pub ghost struct DataView {
    pub timestamp: Seq<char>,
    pub level: LogLevel,
    pub source: LogSource,
    pub project: Seq<char>,
    pub message: Seq<char>,
    pub pid: u32,
}

/// Mathematical image of [`LogMessage`].
pub ghost struct MessageView {
    pub version: Seq<char>,
    pub msg_type: Seq<char>,
    pub data: DataView,
}

/// Payload of a captured line.
#[derive(Debug, Clone)]
pub struct LogData {
    pub timestamp: String,
    pub level: LogLevel,
    pub source: LogSource,
    pub project: String,
    pub message: String,
    pub pid: u32,
}

impl View for LogData {
    type V = DataView;

    open spec fn view(&self) -> DataView {
        DataView {
            timestamp: self.timestamp@,
            level: self.level,
            source: self.source,
            project: self.project@,
            message: self.message@,
            pid: self.pid,
        }
    }
}

impl DeepView for LogData {
    type V = DataView;

    open spec fn deep_view(&self) -> DataView {
        self@
    }
}

/// One captured line, framed for the outbound collector protocol.
#[derive(Debug, Clone)]
pub struct LogMessage {
    pub version: String,
    pub msg_type: String,
    pub data: LogData,
}

impl View for LogMessage {
    type V = MessageView;

    open spec fn view(&self) -> MessageView {
        MessageView { version: self.version@, msg_type: self.msg_type@, data: self.data@ }
    }
}

impl DeepView for LogMessage {
    type V = MessageView;

    open spec fn deep_view(&self) -> MessageView {
        self@
    }
}

/// A capture timestamp is well formed when its RFC 3339 text is long enough
/// to carry a date and a time of day.
pub open spec fn timestamp_wf(ts: Seq<char>) -> bool {
    ts.len() >= 19
}

/// The case-folded image of `s`, as `str::to_lowercase` computes it.
pub uninterp spec fn lower_of(s: Seq<char>) -> Seq<char>;

/// Relies on `str::to_lowercase`: the result is a function of the input
/// characters alone.
#[verifier::external_body]
pub(crate) fn to_lower(s: &str) -> (r: String)
    ensures
        r@ == lower_of(s@),
{
    s.to_lowercase()
}

/// Relies on `chrono::Utc::now().to_rfc3339()`: the text always starts with
/// the 19 characters of date and time of day (`YYYY-MM-DDTHH:MM:SS`).
#[verifier::external_body]
pub(crate) fn rfc3339_utc_now() -> (r: String)
    ensures
        timestamp_wf(r@),
{
    chrono::Utc::now().to_rfc3339()
}

/// Relies on `chrono::Local::now().format("%H:%M:%S")`: the rendered clock
/// reading is always exactly eight characters.
#[verifier::external_body]
pub(crate) fn local_clock_hhmmss() -> (r: String)
    ensures
        r@.len() == 8,
{
    chrono::Local::now().format("%H:%M:%S").to_string()
}

/// Severity inferred from the case-folded text of a message: the first rule
/// that matches wins, in the order error ("error" or "fatal"), warning
/// ("warn"), debug ("debug" or "trace"), and otherwise the line is
/// informational.
pub open spec fn spec_classify(lower: Seq<char>) -> LogLevel {
    if seq_contains(lower, "error"@) || seq_contains(lower, "fatal"@) {
        LogLevel::Error
    } else if seq_contains(lower, "warn"@) {
        LogLevel::Warn
    } else if seq_contains(lower, "debug"@) || seq_contains(lower, "trace"@) {
        LogLevel::Debug
    } else {
        LogLevel::Info
    }
}

/// Classify a message whose text has already been case-folded.
pub fn classify_folded(lower: &str) -> (r: LogLevel)
    ensures
        r == spec_classify(lower@),
{
    if str_contains(lower, "error") || str_contains(lower, "fatal") {
        LogLevel::Error
    } else if str_contains(lower, "warn") {
        LogLevel::Warn
    } else if str_contains(lower, "debug") || str_contains(lower, "trace") {
        LogLevel::Debug
    } else {
        LogLevel::Info
    }
}

impl LogMessage {
    /// Build a record for one captured line, stamped with the current time.
    pub fn new(project: String, message: String, source: LogSource, pid: u32) -> (r: LogMessage)
        ensures
            r@.version == "1.0"@,
            r@.msg_type == "log_entry"@,
            timestamp_wf(r@.data.timestamp),
            r@.data.level == spec_classify(lower_of(message@)),
            r@.data.source == source,
            r@.data.project == project@,
            r@.data.message == message@,
            r@.data.pid == pid,
    {
        let level = Self::infer_level(message.as_str());
        LogMessage {
            version: "1.0".to_owned(),
            msg_type: "log_entry".to_owned(),
            data: LogData {
                timestamp: rfc3339_utc_now(),
                level,
                source,
                project,
                message,
                pid,
            },
        }
    }

    /// Infer the severity of a message by case-insensitive substring match.
    pub fn infer_level(message: &str) -> (r: LogLevel)
        ensures
            r == spec_classify(lower_of(message@)),
    {
        let lower = to_lower(message);
        classify_folded(lower.as_str())
    }
}

/// Turn one raw captured line into a record: strip the trailing line
/// terminator and drop the line when nothing remains.
pub fn record_from_line(project: &str, line: &str, source: LogSource, pid: u32) -> (r: Option<
    LogMessage,
>)
    ensures
        r is Some <==> spec_trim_line_end(line@).len() > 0,
        r matches Some(m) ==> {
            &&& m@.data.message == spec_trim_line_end(line@)
            &&& m@.data.level == spec_classify(lower_of(spec_trim_line_end(line@)))
            &&& m@.data.source == source
            &&& m@.data.project == project@
            &&& m@.data.pid == pid
            &&& timestamp_wf(m@.data.timestamp)
        },
{
    let message = trim_line_end(line);
    if message.as_str().is_empty() {
        None
    } else {
        Some(LogMessage::new(project.to_owned(), message, source, pid))
    }
}

} // verus!
