//! Contracts for the regular-expression and clock operations the library
//! uses: regex matching and replacement, the local date-time formatting of
//! action texts, and the current local instant.

use std::fmt::Write;
use vstd::prelude::*;

verus! {

/// Whether `regex::Regex::new` accepts a pattern.
pub uninterp spec fn regex_compiles(pattern: Seq<char>) -> bool;

/// What `Regex::is_match` answers for a compiled pattern and a text.
pub uninterp spec fn regex_finds_match(pattern: Seq<char>, text: Seq<char>) -> bool;

/// What `Regex::replace_all` returns for a compiled pattern, a text and a
/// replacement (the replacement may name capture groups with `$`).
pub uninterp spec fn regex_replaced(pattern: Seq<char>, text: Seq<char>, replacement: Seq<char>) -> Seq<char>;

/// `regex::Regex::new(pattern).is_ok()`.
#[verifier::external_body]
pub(crate) fn pattern_compiles(pattern: &str) -> (r: bool)
    ensures
        r == regex_compiles(pattern@),
{
    regex::Regex::new(pattern).is_ok()
}

/// `Regex::is_match` of the compiled pattern on the text; `None` when the
/// pattern does not compile.
#[verifier::external_body]
pub(crate) fn pattern_is_match(pattern: &str, text: &str) -> (r: Option<bool>)
    ensures
        r is Some <==> regex_compiles(pattern@),
        r matches Some(b) ==> b == regex_finds_match(pattern@, text@),
{
    match regex::Regex::new(pattern) {
        Ok(re) => Some(re.is_match(text)),
        Err(_) => None,
    }
}

/// `Regex::replace_all` of the compiled pattern on the text; `None` when the
/// pattern does not compile.
#[verifier::external_body]
pub(crate) fn pattern_replace_all(pattern: &str, text: &str, replacement: &str) -> (r: Option<String>)
    ensures
        r is Some <==> regex_compiles(pattern@),
        r matches Some(s) ==> s@ == regex_replaced(pattern@, text@, replacement@),
{
    match regex::Regex::new(pattern) {
        Ok(re) => Some(re.replace_all(text, replacement).into_owned()),
        Err(_) => None,
    }
}

/// Whether chrono's strftime parser accepts a format text: it reports an
/// error item for an unknown or unfinished `%` specifier, and formatting the
/// current local date-time then fails.
pub uninterp spec fn datetime_format_accepted(format: Seq<char>) -> bool;

/// A text without a `%` specifier: chrono writes it back unchanged.
pub open spec fn has_no_specifier(text: Seq<char>) -> bool {
    forall|i: int| 0 <= i < text.len() ==> text[i] != '%'
}

/// `chrono::Local::now().format(format)` written to a string. Formatting fails
/// exactly when the format text holds an error item (the other errors chrono
/// can report need years outside 0 to 9999, which the clock does not give);
/// a text without `%` comes back unchanged. Otherwise the text depends on the
/// clock and the machine's time zone, and nothing more is stated of it.
#[verifier::external_body]
pub(crate) fn local_now_formatted(format: &str) -> (r: Option<String>)
    ensures
        r is Some <==> datetime_format_accepted(format@),
        has_no_specifier(format@) ==> (r is Some && r->0@ == format@),
{
    let mut out = String::new();
    match write!(out, "{}", chrono::Local::now().format(format)) {
        Ok(()) => Some(out),
        Err(_) => None,
    }
}

/// `chrono::Local::now()` as seconds since the Unix epoch and the
/// nanoseconds past that second. The instant depends on the clock, so
/// nothing is stated of it.
#[verifier::external_body]
pub(crate) fn local_now_instant() -> (i64, u32) {
    let now = chrono::Local::now();
    (now.timestamp(), now.timestamp_subsec_nanos())
}

} // verus!
