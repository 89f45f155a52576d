//! Log entries the front end collects for the user.

use vstd::prelude::*;

verus! {

/// Severity of a log entry.
#[derive(Debug, Clone, Copy, PartialEq, Eq, Structural)]
pub enum LogLevel {
    /// Diagnostic detail.
    Debug,
    /// Ordinary results, such as the measurement report.
    Info,
    /// Something suspicious that did not stop the operation.
    Warn,
    /// An operation failed.
    Error,
    /// The application cannot continue.
    Fatal,
}

/// One log entry: a severity, a short title, and the message body.
#[derive(Debug)]
pub struct Log {
    /// The entry's severity.
    pub level: LogLevel,
    /// The collapsible title line.
    pub title: String,
    /// The message body.
    pub message: String,
}

impl Log {
    /// Builds an entry from its parts.
    pub fn new(level: LogLevel, title: String, message: String) -> (r: Log)
        ensures
            r.level == level,
            r.title@ == title@,
            r.message@ == message@,
    {
        Log { level, title, message }
    }
}

} // verus!
