//! Log levels, and the names by which the command line selects one.

use std::str::FromStr;
use vstd::prelude::*;

verus! {

/// How grave a log record is.
#[derive(Clone, Copy, Debug, PartialEq, Eq)]
pub enum Level {
    Error,
    Warn,
    Info,
    Debug,
    Trace,
}

/// The most verbose level that is still logged; `Off` logs nothing.
#[derive(Clone, Copy, Debug, PartialEq, Eq)]
pub enum LevelFilter {
    Off,
    Error,
    Warn,
    Info,
    Debug,
    Trace,
}

/// An ASCII capital as its small letter; any other character as it is.
pub open spec fn ascii_lower(c: char) -> char {
    if 'A' <= c && c <= 'Z' {
        ((c as u8) + 32) as char
    } else {
        c
    }
}

/// Whether two strings are the same but for the case of their ASCII letters.
pub open spec fn eq_ignore_ascii_case(a: Seq<char>, b: Seq<char>) -> bool {
    &&& a.len() == b.len()
    &&& forall|i: int| 0 <= i < a.len() ==> ascii_lower(#[trigger] a[i]) == ascii_lower(b[i])
}

/// The filter that a name denotes to the logger, if it denotes one: the name of
/// the filter in any mix of capital and small letters.
pub open spec fn spec_level_filter(name: Seq<char>) -> Option<LevelFilter> {
    if eq_ignore_ascii_case(name, "OFF"@) {
        Some(LevelFilter::Off)
    } else if eq_ignore_ascii_case(name, "ERROR"@) {
        Some(LevelFilter::Error)
    } else if eq_ignore_ascii_case(name, "WARN"@) {
        Some(LevelFilter::Warn)
    } else if eq_ignore_ascii_case(name, "INFO"@) {
        Some(LevelFilter::Info)
    } else if eq_ignore_ascii_case(name, "DEBUG"@) {
        Some(LevelFilter::Debug)
    } else if eq_ignore_ascii_case(name, "TRACE"@) {
        Some(LevelFilter::Trace)
    } else {
        None
    }
}

/// `FromStr` of `log::LevelFilter`. It compares the name with `OFF`, `ERROR`,
/// `WARN`, `INFO`, `DEBUG` and `TRACE`, in that order and without regard to
/// ASCII case, and fails where none matches.
#[verifier::external_body]
fn level_filter_from_str(name: &str) -> (filter: Option<LevelFilter>)
    ensures
        filter == spec_level_filter(name@),
{
    match log::LevelFilter::from_str(name) {
        Ok(log::LevelFilter::Off) => Some(LevelFilter::Off),
        Ok(log::LevelFilter::Error) => Some(LevelFilter::Error),
        Ok(log::LevelFilter::Warn) => Some(LevelFilter::Warn),
        Ok(log::LevelFilter::Info) => Some(LevelFilter::Info),
        Ok(log::LevelFilter::Debug) => Some(LevelFilter::Debug),
        Ok(log::LevelFilter::Trace) => Some(LevelFilter::Trace),
        Err(_) => None,
    }
}

/// The level that a name on the command line selects: `trace`, `debug`, `info`,
/// `warn` or `error`, in any mix of capital and small letters. `off` is a filter
/// of the logger and no level of the command line: it selects nothing.
pub open spec fn spec_selected_level(name: Seq<char>) -> Option<LevelFilter> {
    match spec_level_filter(name) {
        Some(LevelFilter::Off) => None,
        denoted => denoted,
    }
}

/// The level that a name on the command line selects, if it selects one.
pub fn selected_level(name: &str) -> (level: Option<LevelFilter>)
    ensures
        level == spec_selected_level(name@),
        level != Some(LevelFilter::Off),
{
    match level_filter_from_str(name) {
        Some(LevelFilter::Off) => None,
        denoted => denoted,
    }
}

} // verus!
