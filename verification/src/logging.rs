//! How PJSIP's native log lines are forwarded: the severity that a PJSIP log
//! level stands for, and the message with its line ending and leading
//! timestamp removed.

use vstd::prelude::*;
use vstd::string::StrSliceExecFns;

verus! {

/// Severity of a forwarded log line.
#[derive(Debug, Clone, Copy, PartialEq, Eq, Structural)]
pub enum LogSeverity {
    Error,
    Warn,
    Info,
    Debug,
    Trace,
}

/// PJSIP log levels 1..4 are error, warning, info and debug; anything else is trace.
pub open spec fn severity_of(level: i32) -> LogSeverity {
    if level == 1 {
        LogSeverity::Error
    } else if level == 2 {
        LogSeverity::Warn
    } else if level == 3 {
        LogSeverity::Info
    } else if level == 4 {
        LogSeverity::Debug
    } else {
        LogSeverity::Trace
    }
}

/// PJSIP log level 1 is an error, 2 a warning, 3 information, 4 debugging
/// output; every other level, and only such a level, is trace output.
pub proof fn law_log_levels(level: i32)
    ensures
        severity_of(1) == LogSeverity::Error,
        severity_of(2) == LogSeverity::Warn,
        severity_of(3) == LogSeverity::Info,
        severity_of(4) == LogSeverity::Debug,
        severity_of(level) == LogSeverity::Trace <==> (level < 1 || level > 4),
{
}

/// The severity for a PJSIP log level.
pub fn log_severity(level: i32) -> (s: LogSeverity)
    ensures
        s == severity_of(level),
{
    if level == 1 {
        LogSeverity::Error
    } else if level == 2 {
        LogSeverity::Warn
    } else if level == 3 {
        LogSeverity::Info
    } else if level == 4 {
        LogSeverity::Debug
    } else {
        LogSeverity::Trace
    }
}

/// Whether `char::is_whitespace` (std) holds of a character, that is, whether
/// it has the Unicode `White_Space` property.
pub uninterp spec fn white_space(c: char) -> bool;

/// How many characters at the start of a text are white space.
pub open spec fn leading_white(t: Seq<char>) -> nat
    decreases t.len(),
{
    if t.len() > 0 && white_space(t[0]) {
        1 + leading_white(t.drop_first())
    } else {
        0
    }
}

/// How many characters at the end of a text are white space.
pub open spec fn trailing_white(t: Seq<char>) -> nat
    decreases t.len(),
{
    if t.len() > 0 && white_space(t.last()) {
        1 + trailing_white(t.drop_last())
    } else {
        0
    }
}

/// The text without its leading white space.
pub open spec fn trim_start_of(t: Seq<char>) -> Seq<char> {
    t.skip(leading_white(t) as int)
}

/// The text without its leading and trailing white space.
pub open spec fn trim_of(t: Seq<char>) -> Seq<char> {
    let s = trim_start_of(t);
    s.take(s.len() - trailing_white(s))
}

/// `str::trim` (std): the text with leading and trailing white space removed,
/// white space being what `char::is_whitespace` accepts.
#[verifier::external_body]
fn trim(text: &str) -> (r: &str)
    ensures
        r@ == trim_of(text@),
        r@.len() > 0 ==> !white_space(r@[0]) && !white_space(r@.last()),
{
    text.trim()
}

/// `str::trim_start` (std): the text with leading white space removed.
#[verifier::external_body]
fn trim_start(text: &str) -> (r: &str)
    ensures
        r@ == trim_start_of(text@),
        r@.len() > 0 ==> !white_space(r@[0]),
{
    text.trim_start()
}

/// Length of PJSIP's time stamp `HH:MM:SS.mmm`, in characters.
pub const TIMESTAMP_LEN: usize = 12;

/// Whether a character is an ASCII decimal digit.
pub open spec fn is_digit(c: char) -> bool {
    '0' <= c <= '9'
}

/// Whether a text begins with a time stamp `HH:MM:SS.mmm`: two digits, `:`,
/// two digits, `:`, two digits, `.`, three digits.
pub open spec fn starts_with_timestamp(t: Seq<char>) -> bool {
    &&& t.len() >= TIMESTAMP_LEN
    &&& is_digit(t[0]) && is_digit(t[1]) && t[2] == ':'
    &&& is_digit(t[3]) && is_digit(t[4]) && t[5] == ':'
    &&& is_digit(t[6]) && is_digit(t[7]) && t[8] == '.'
    &&& is_digit(t[9]) && is_digit(t[10]) && is_digit(t[11])
}

/// The message of a log line: the line trimmed, and then, when it begins with
/// a `HH:MM:SS.mmm` time stamp, that stamp and the white space after it
/// removed. Any other text is left as it is.
pub open spec fn log_body(text: Seq<char>) -> Seq<char> {
    let t = trim_of(text);
    if starts_with_timestamp(t) {
        trim_start_of(t.skip(TIMESTAMP_LEN as int))
    } else {
        t
    }
}

fn char_is_digit(c: char) -> (b: bool)
    ensures
        b == is_digit(c),
{
    '0' <= c && c <= '9'
}

fn has_timestamp(t: &str) -> (b: bool)
    ensures
        b == starts_with_timestamp(t@),
{
    if t.unicode_len() < TIMESTAMP_LEN {
        return false;
    }
    char_is_digit(t.get_char(0)) && char_is_digit(t.get_char(1)) && t.get_char(2) == ':'
        && char_is_digit(t.get_char(3)) && char_is_digit(t.get_char(4)) && t.get_char(5) == ':'
        && char_is_digit(t.get_char(6)) && char_is_digit(t.get_char(7)) && t.get_char(8) == '.'
        && char_is_digit(t.get_char(9)) && char_is_digit(t.get_char(10)) && char_is_digit(
        t.get_char(11),
    )
}

/// The message of a PJSIP log line, without its line ending, its leading
/// `HH:MM:SS.mmm` time stamp and the white space after the stamp.
pub fn log_message_body(text: &str) -> (r: String)
    ensures
        r@ == log_body(text@),
{
    let t = trim(text);
    if has_timestamp(t) {
        let rest = t.substring_char(TIMESTAMP_LEN, t.unicode_len());
        assert(rest@ =~= t@.skip(TIMESTAMP_LEN as int));
        let body = trim_start(rest);
        String::from_str(body)
    } else {
        String::from_str(t)
    }
}

} // verus!
