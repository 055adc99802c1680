//! Severity levels and the flush-time filter they induce.
//!
//! A level serves two roles: it tags a recorded entry (`Error`, `Debug`,
//! `Info`), and it acts as the filter chosen when the buffer is flushed.
//! The filter is an exact match per level, not a threshold: `Error` keeps
//! only `Error` entries, `Info` only `Info` entries, while `Debug` and
//! `Default` keep everything.

use vstd::prelude::*;
use vstd::string::StringExecFns;

verus! {

/// A severity tag, or the flush-time filter built from one.
///
/// `Default` is never attached to a recorded entry; it exists only as the
/// fallback filter used when no recognized level was configured.
#[derive(Clone, Copy, Debug, PartialEq, Eq, Structural)]
pub enum LogLevel {
    Default,
    Error,
    Debug,
    Info,
}

/// Whether an entry tagged `level` passes the flush filter `filter`.
///
/// `Default` and `Debug` are verbose modes that keep every entry; `Error`
/// and `Info` keep exactly the entries carrying the same tag.
pub open spec fn spec_included(filter: LogLevel, level: LogLevel) -> bool {
    match filter {
        LogLevel::Default => true,
        LogLevel::Debug => true,
        LogLevel::Error => level is Error,
        LogLevel::Info => level is Info,
    }
}

/// Whether an entry tagged `level` passes the flush filter `filter`.
pub fn included(filter: LogLevel, level: LogLevel) -> (r: bool)
    ensures
        r == spec_included(filter, level),
{
    match filter {
        LogLevel::Default => true,
        LogLevel::Debug => true,
        LogLevel::Error => matches!(level, LogLevel::Error),
        LogLevel::Info => matches!(level, LogLevel::Info),
    }
}

/// The tag a level is written under in an output line.
pub open spec fn spec_level_label(level: LogLevel) -> Seq<char> {
    match level {
        LogLevel::Default => "Default"@,
        LogLevel::Error => "Error"@,
        LogLevel::Debug => "Debug"@,
        LogLevel::Info => "Info"@,
    }
}

/// The tag a level is written under in an output line.
pub fn level_label(level: LogLevel) -> (r: &'static str)
    ensures
        r@ == spec_level_label(level),
{
    match level {
        LogLevel::Default => "Default",
        LogLevel::Error => "Error",
        LogLevel::Debug => "Debug",
        LogLevel::Info => "Info",
    }
}

/// The filter that a configured value selects: `"debug"` and `"info"` map
/// to their levels, anything else (a different string, or no value at all)
/// falls back to `Default`.
pub open spec fn spec_log_level(value: Option<Seq<char>>) -> LogLevel {
    match value {
        Option::Some(s) => {
            if s == "debug"@ {
                LogLevel::Debug
            } else if s == "info"@ {
                LogLevel::Info
            } else {
                LogLevel::Default
            }
        },
        Option::None => LogLevel::Default,
    }
}

/// Resolves the flush-time filter from a configured value, typically the
/// contents of an environment variable; absence falls back to `Default`.
pub fn get_log_level(value: Option<String>) -> (r: LogLevel)
    ensures
        r == spec_log_level(value.deep_view()),
{
    match value {
        Option::Some(v) => {
            if v == String::from_str("debug") {
                LogLevel::Debug
            } else if v == String::from_str("info") {
                LogLevel::Info
            } else {
                LogLevel::Default
            }
        },
        Option::None => LogLevel::Default,
    }
}

} // verus!
