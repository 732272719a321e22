//! Log records raised on behalf of the host. The library only builds them;
//! the embedding application hands them to its sink.
use vstd::prelude::*;

verus! {

/// Severity of a record.
#[derive(Debug, Clone, Copy, PartialEq, Eq, Structural)]
pub enum LogLevel {
    Debug,
    Info,
    Warn,
    Error,
}

/// One event to record: its level, the target it is filed under, and the message.
#[derive(Debug, Clone, PartialEq, Eq)]
pub struct LogRecord {
    pub level: LogLevel,
    pub target: String,
    pub message: String,
}

/// The target under which the host's own messages are filed.
pub open spec fn host_target() -> Seq<char> {
    "Python"@
}

/// A handle through which the host logs.
#[derive(Debug, Clone, Copy, PartialEq, Eq, Structural)]
pub struct Logger;

impl Logger {
    pub fn new() -> (r: Logger)
        ensures
            r == Logger,
    {
        Logger
    }

    fn record(&self, level: LogLevel, message: String) -> (r: LogRecord)
        ensures
            r.level == level,
            r.target@ == host_target(),
            r.message == message,
    {
        LogRecord { level, target: "Python".to_owned(), message }
    }

    /// A debug-level record of `message`.
    pub fn debug(&self, message: String) -> (r: LogRecord)
        ensures
            r.level == LogLevel::Debug,
            r.target@ == host_target(),
            r.message == message,
    {
        self.record(LogLevel::Debug, message)
    }

    /// An info-level record of `message`.
    pub fn info(&self, message: String) -> (r: LogRecord)
        ensures
            r.level == LogLevel::Info,
            r.target@ == host_target(),
            r.message == message,
    {
        self.record(LogLevel::Info, message)
    }

    /// A warning-level record of `message`.
    pub fn warn(&self, message: String) -> (r: LogRecord)
        ensures
            r.level == LogLevel::Warn,
            r.target@ == host_target(),
            r.message == message,
    {
        self.record(LogLevel::Warn, message)
    }

    /// An error-level record of `message`.
    pub fn error(&self, message: String) -> (r: LogRecord)
        ensures
            r.level == LogLevel::Error,
            r.target@ == host_target(),
            r.message == message,
    {
        self.record(LogLevel::Error, message)
    }
}

} // verus!
