use vstd::prelude::*;

verus! {

/// How serious a log line is.
#[derive(Clone, Copy, Debug, PartialEq, Eq, Structural)]
pub enum Severity {
    Info,
    Error,
}

/// One line for the logging sink: the library composes it, the embedding
/// program emits it.
#[derive(Debug, PartialEq, Eq)]
pub struct LogEvent {
    pub severity: Severity,
    pub message: String,
}

/// A log line as contracts see it.
pub struct LogLine {
    pub severity: Severity,
    pub message: Seq<char>,
}

impl View for LogEvent {
    type V = LogLine;

    open spec fn view(&self) -> LogLine {
        LogLine { severity: self.severity, message: self.message@ }
    }
}

/// The lines that a vector of events stands for, in order.
pub open spec fn lines_of(events: Seq<LogEvent>) -> Seq<LogLine> {
    events.map_values(|e: LogEvent| e@)
}

impl LogEvent {
    /// An informational line.
    pub fn info(message: String) -> (event: LogEvent)
        ensures
            event@ == (LogLine { severity: Severity::Info, message: message@ }),
    {
        LogEvent { severity: Severity::Info, message }
    }

    /// An error line.
    pub fn error(message: String) -> (event: LogEvent)
        ensures
            event@ == (LogLine { severity: Severity::Error, message: message@ }),
    {
        LogEvent { severity: Severity::Error, message }
    }
}

} // verus!
