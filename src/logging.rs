//! The log level the bot runs at, chosen by name.

use vstd::prelude::*;
use crate::text::same_text;

verus! {

/// The most detailed kind of record that is printed.
#[derive(Clone, Copy, Debug, PartialEq, Eq, Structural)]
pub enum LogLevel {
    Off,
    Error,
    Warn,
    Info,
    Debug,
    Trace,
}

/// The level that `name` names; any other name gives `Info`.
pub open spec fn level_named(name: Seq<char>) -> LogLevel {
    if name == "Off"@ {
        LogLevel::Off
    } else if name == "Trace"@ {
        LogLevel::Trace
    } else if name == "Debug"@ {
        LogLevel::Debug
    } else if name == "Info"@ {
        LogLevel::Info
    } else if name == "Warn"@ {
        LogLevel::Warn
    } else if name == "Error"@ {
        LogLevel::Error
    } else {
        LogLevel::Info
    }
}

/// Reads a log level from its name, as written in the environment.
pub fn level_from_name(name: &str) -> (r: LogLevel)
    ensures
        r == level_named(name@),
{
    if same_text(name, "Off") {
        LogLevel::Off
    } else if same_text(name, "Trace") {
        LogLevel::Trace
    } else if same_text(name, "Debug") {
        LogLevel::Debug
    } else if same_text(name, "Info") {
        LogLevel::Info
    } else if same_text(name, "Warn") {
        LogLevel::Warn
    } else if same_text(name, "Error") {
        LogLevel::Error
    } else {
        LogLevel::Info
    }
}

/// Records at `level` are printed: only errors, warnings and information.
pub fn is_printed(level: LogLevel) -> (r: bool)
    ensures
        r == (level == LogLevel::Error || level == LogLevel::Warn || level == LogLevel::Info),
{
    match level {
        LogLevel::Error | LogLevel::Warn | LogLevel::Info => true,
        _ => false,
    }
}

} // verus!
