use vstd::prelude::*;

verus! {

/// Severity of a log record.
#[derive(Debug, Clone, Copy, PartialEq, Eq, Structural)]
pub enum LogLevel {
    INFO,
    WARN,
    ERROR,
    CRITICAL,
}

/// A sink for log records.
pub trait Logger: Send + Sync + 'static {
    fn log(&self, level: LogLevel, msg: String);
}

/// The sink that drops every record.
#[derive(Default, Debug)]
pub struct NullLogger {}

impl Logger for NullLogger {
    fn log(&self, _level: LogLevel, _msg: String) {
    }
}

} // verus!
