//! Log level selection.

use vstd::prelude::*;

use crate::text::str_eq;

verus! {

/// The verbosity levels of the log.
#[derive(Debug, Clone, Copy, PartialEq, Eq)]
pub enum LogLevel {
    Trace,
    Debug,
    Info,
    Warn,
    Error,
}

/// The lower-case form that `str::to_lowercase` gives a string.
pub uninterp spec fn lowercase_of(s: Seq<char>) -> Seq<char>;

/// Calls `str::to_lowercase`; the result is named `lowercase_of`.
#[verifier::external_body]
fn to_lowercase(s: &str) -> (r: String)
    ensures
        r@ == lowercase_of(s@),
{
    s.to_lowercase()
}

/// The level a lower-case name stands for; an unknown name means `Info`.
pub open spec fn level_named(name: Seq<char>) -> LogLevel {
    if name == "trace"@ {
        LogLevel::Trace
    } else if name == "debug"@ {
        LogLevel::Debug
    } else if name == "info"@ {
        LogLevel::Info
    } else if name == "warn"@ {
        LogLevel::Warn
    } else if name == "error"@ {
        LogLevel::Error
    } else {
        LogLevel::Info
    }
}

/// The level that a name already in lower case stands for.
pub fn level_from_lowercase(name: &str) -> (r: LogLevel)
    ensures
        r == level_named(name@),
{
    if str_eq(name, "trace") {
        LogLevel::Trace
    } else if str_eq(name, "debug") {
        LogLevel::Debug
    } else if str_eq(name, "info") {
        LogLevel::Info
    } else if str_eq(name, "warn") {
        LogLevel::Warn
    } else if str_eq(name, "error") {
        LogLevel::Error
    } else {
        LogLevel::Info
    }
}

/// The level a name stands for, whatever its case; unknown names mean `Info`.
pub fn level_from_str(level: &str) -> (r: LogLevel)
    ensures
        r == level_named(lowercase_of(level@)),
{
    let lower = to_lowercase(level);
    level_from_lowercase(lower.as_str())
}

} // verus!
