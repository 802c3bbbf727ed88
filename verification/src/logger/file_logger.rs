use crate::logger::traits::LogLevel;
use vstd::prelude::*;
use vstd::string::*;

verus! {

/// The tag that marks the level of a record in a log file.
pub open spec fn level_tag_text(level: LogLevel) -> Seq<char> {
    match level {
        LogLevel::INFO => "[INFO] "@,
        LogLevel::WARN => "[WARN] "@,
        LogLevel::ERROR => "[ERROR] "@,
        LogLevel::CRITICAL => "[CRITICAL] "@,
    }
}

/// A record as it stands in a log file: the time stamp, the tag of the
/// level, the message, and the end of the line.
pub open spec fn log_line_text(stamp: Seq<char>, level: LogLevel, msg: Seq<char>) -> Seq<char> {
    stamp + level_tag_text(level) + msg + "\n"@
}

/// The tag that marks the level of a record in a log file.
pub fn level_tag(level: LogLevel) -> (tag: &'static str)
    ensures
        tag@ == level_tag_text(level),
{
    match level {
        LogLevel::INFO => "[INFO] ",
        LogLevel::WARN => "[WARN] ",
        LogLevel::ERROR => "[ERROR] ",
        LogLevel::CRITICAL => "[CRITICAL] ",
    }
}

/// The line that a record adds to a log file. `stamp` is the time of the
/// record as it is to be written, brackets and the blank behind them
/// included.
pub fn log_line(stamp: &str, level: LogLevel, msg: &str) -> (line: String)
    ensures
        line@ == log_line_text(stamp@, level, msg@),
{
    let mut line = String::from_str(stamp);
    line.append(level_tag(level));
    line.append(msg);
    line.append("\n");
    line
}

} // verus!
