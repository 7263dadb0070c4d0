//! What the log is set up with.

use vstd::prelude::*;
use vstd::string::StringExecFns;
use crate::config::models::LogLevel;
use crate::utils::text::{lowercase_text, str_eq, to_lowercase};

verus! {

/// The pattern of a line on the console.
pub const CONSOLE_PATTERN: &'static str = "{d(%Y-%m-%d %H:%M:%S)} [{l}] {m}{n}";

/// The pattern of a line in the log file.
pub const FILE_PATTERN: &'static str = "{d(%Y-%m-%d %H:%M:%S)} [{l}] [{T}] {t} - {m}{n}";

/// Where the log is written while no configuration has been read.
pub const DEFAULT_LOG_PATH: &'static str = "logs/rebootreminder.log";

/// The size of one log file in MB, and the number of log files kept, while
/// no configuration has been read.
pub const DEFAULT_LOG_SIZE_MB: u32 = 10;

pub const DEFAULT_LOG_FILES: u32 = 7;

/// The level that a name in lower case asks for; a name that is none
/// asks for `Info`.
pub open spec fn level_named(name: Seq<char>) -> LogLevel {
    if name == "trace"@ {
        LogLevel::Trace
    } else if name == "debug"@ {
        LogLevel::Debug
    } else if name == "warn"@ {
        LogLevel::Warn
    } else if name == "error"@ {
        LogLevel::Error
    } else {
        LogLevel::Info
    }
}

/// The level for the configured name `lowercase_name`, written in lower
/// case; `debug` asks for `Debug` whatever is configured.
pub fn level_for(lowercase_name: &str, debug: bool) -> (level: LogLevel)
    ensures
        level == if debug {
            LogLevel::Debug
        } else {
            level_named(lowercase_name@)
        },
{
    if debug {
        LogLevel::Debug
    } else if str_eq(lowercase_name, "trace") {
        LogLevel::Trace
    } else if str_eq(lowercase_name, "debug") {
        LogLevel::Debug
    } else if str_eq(lowercase_name, "warn") {
        LogLevel::Warn
    } else if str_eq(lowercase_name, "error") {
        LogLevel::Error
    } else {
        LogLevel::Info
    }
}

/// The level of the log: `Debug` where `debug` asks for it, else the level
/// that the configuration names, in whatever case.
pub fn effective_level(configured: &str, debug: bool) -> (level: LogLevel)
    ensures
        level == if debug {
            LogLevel::Debug
        } else {
            level_named(lowercase_text(configured@))
        },
{
    if debug {
        return LogLevel::Debug;
    }
    let lower = to_lowercase(configured);
    level_for(lower.as_str(), false)
}

/// The size in bytes at which a log file of at most `max_size_mb` MB is
/// rolled over.
pub fn roll_size_bytes(max_size_mb: u32) -> (bytes: u64)
    ensures
        bytes == max_size_mb * 1024 * 1024,
{
    max_size_mb as u64 * 1024 * 1024
}

/// The pattern for the names of the rolled files of the log at `path`: the
/// path, a dot, and the place of the number.
pub fn roll_pattern(path: &str) -> (pattern: String)
    ensures
        pattern@ == path@ + ".{}"@,
{
    path.to_owned().concat(".{}")
}

} // verus!
