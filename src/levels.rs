use vstd::prelude::*;

verus! {

/// The log crate's verbosity filter; its six variants are read by the contracts.
#[verifier::external_type_specification]
pub struct ExLevelFilter(log::LevelFilter);

/// `c` with an ASCII upper-case letter turned to lower case.
pub open spec fn ascii_lower(c: char) -> char {
    if 'A' <= c && c <= 'Z' {
        ((c as u32) + 32) as char
    } else {
        c
    }
}

/// `a` and `b` are equal when ASCII letters are compared without regard to case.
pub open spec fn eq_ignore_ascii_case(a: Seq<char>, b: Seq<char>) -> bool {
    &&& a.len() == b.len()
    &&& forall|i: int| 0 <= i < a.len() ==> ascii_lower(#[trigger] a[i]) == ascii_lower(b[i])
}

/// The level filter whose name `s` is, upper or lower case alike.
pub open spec fn level_named(s: Seq<char>) -> Option<log::LevelFilter> {
    if eq_ignore_ascii_case(s, seq!['O', 'F', 'F']) {
        Some(log::LevelFilter::Off)
    } else if eq_ignore_ascii_case(s, seq!['E', 'R', 'R', 'O', 'R']) {
        Some(log::LevelFilter::Error)
    } else if eq_ignore_ascii_case(s, seq!['W', 'A', 'R', 'N']) {
        Some(log::LevelFilter::Warn)
    } else if eq_ignore_ascii_case(s, seq!['I', 'N', 'F', 'O']) {
        Some(log::LevelFilter::Info)
    } else if eq_ignore_ascii_case(s, seq!['D', 'E', 'B', 'U', 'G']) {
        Some(log::LevelFilter::Debug)
    } else if eq_ignore_ascii_case(s, seq!['T', 'R', 'A', 'C', 'E']) {
        Some(log::LevelFilter::Trace)
    } else {
        None
    }
}

/// Relies on `<log::LevelFilter as FromStr>::from_str`, which compares `s`
/// without regard to ASCII case against "OFF", "ERROR", "WARN", "INFO",
/// "DEBUG" and "TRACE", in that order, and fails on anything else.
#[verifier::external_body]
pub(crate) fn level_filter_from_str(s: &str) -> (r: Option<log::LevelFilter>)
    ensures
        r == level_named(s@),
{
    <log::LevelFilter as std::str::FromStr>::from_str(s).ok()
}


/// The log crate's severity of a record; its five variants are read by the contracts.
#[verifier::external_type_specification]
pub struct ExLevel(log::Level);

/// The terminal colours of ansi_term; the variants are read by the contracts.
#[verifier::external_type_specification]
pub struct ExColour(ansi_term::Colour);

/// The colour in which a record's level is written: red for errors, yellow
/// for warnings, green for information, blue for debugging, purple for traces.
pub fn level_colour(level: log::Level) -> (r: ansi_term::Colour)
    ensures
        r == match level {
            log::Level::Error => ansi_term::Colour::Red,
            log::Level::Warn => ansi_term::Colour::Yellow,
            log::Level::Info => ansi_term::Colour::Green,
            log::Level::Debug => ansi_term::Colour::Blue,
            log::Level::Trace => ansi_term::Colour::Purple,
        },
{
    match level {
        log::Level::Error => ansi_term::Colour::Red,
        log::Level::Warn => ansi_term::Colour::Yellow,
        log::Level::Info => ansi_term::Colour::Green,
        log::Level::Debug => ansi_term::Colour::Blue,
        log::Level::Trace => ansi_term::Colour::Purple,
    }
}


/// The name under which a record's level is written.
pub fn level_label(level: log::Level) -> (r: &'static str)
    ensures
        r@ == match level {
            log::Level::Error => "ERROR"@,
            log::Level::Warn => "WARN"@,
            log::Level::Info => "INFO"@,
            log::Level::Debug => "DEBUG"@,
            log::Level::Trace => "TRACE"@,
        },
{
    match level {
        log::Level::Error => "ERROR",
        log::Level::Warn => "WARN",
        log::Level::Info => "INFO",
        log::Level::Debug => "DEBUG",
        log::Level::Trace => "TRACE",
    }
}

} // verus!
