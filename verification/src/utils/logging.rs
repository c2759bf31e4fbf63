//! The level at which the server logs.

use crate::text::{lowercase, lowercase_of, same_text};
use vstd::prelude::*;

verus! {

/// How much is logged, from the most to the least.
#[derive(Debug, Clone, Copy, PartialEq, Eq, Structural)]
pub enum LogLevel {
    Trace,
    Debug,
    Info,
    Warn,
    Error,
}

/// The level that a name in lower case stands for. A name that is none of
/// the five stands for `Info`.
pub open spec fn level_named(lowered: Seq<char>) -> LogLevel {
    if lowered == "trace"@ {
        LogLevel::Trace
    } else if lowered == "debug"@ {
        LogLevel::Debug
    } else if lowered == "info"@ {
        LogLevel::Info
    } else if lowered == "warn"@ {
        LogLevel::Warn
    } else if lowered == "error"@ {
        LogLevel::Error
    } else {
        LogLevel::Info
    }
}

/// The level that a name in lower case stands for.
pub fn level_for(lowered: &str) -> (level: LogLevel)
    ensures
        level == level_named(lowered@),
{
    if same_text(lowered, "trace") {
        LogLevel::Trace
    } else if same_text(lowered, "debug") {
        LogLevel::Debug
    } else if same_text(lowered, "info") {
        LogLevel::Info
    } else if same_text(lowered, "warn") {
        LogLevel::Warn
    } else if same_text(lowered, "error") {
        LogLevel::Error
    } else {
        LogLevel::Info
    }
}

/// Chooses the level to log at from what `LOG_LEVEL` is set to, `None` where
/// it is not set. The name counts whatever its case; without one the level is
/// `Info`.
pub fn init_logging(requested: Option<String>) -> (level: LogLevel)
    ensures
        level == match requested {
            Some(name) => level_named(lowercase_of(name@)),
            None => LogLevel::Info,
        },
{
    match requested {
        Some(name) => level_for(lowercase(name.as_str()).as_str()),
        None => LogLevel::Info,
    }
}

} // verus!
