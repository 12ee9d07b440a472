//! The log record the interface's log panel shows. The logging backend
//! lives in the shell; a record is a plain value.

use vstd::prelude::*;

verus! {

/// Severity of a log record.
#[derive(Debug, Clone, Copy, PartialEq, Eq, Structural)]
pub enum LogLevel {
    Error,
    Warn,
    Info,
    Debug,
    Trace,
}

/// One line of the log panel.
#[derive(Debug, Clone)]
pub struct LogRecord {
    pub level: LogLevel,
    pub message: String,
    pub timestamp: String,
}

impl LogRecord {
    /// A record with the given severity, text and timestamp.
    pub fn new(level: LogLevel, message: String, timestamp: String) -> (r: LogRecord)
        ensures r.level == level, r.message == message, r.timestamp == timestamp,
    {
        LogRecord { level, message, timestamp }
    }
}

} // verus!
