//! Contracts for the standard-library operations that vstd does not specify
//! and that the library uses: string building, lower-casing, integer parsing
//! and path manipulation.

use std::num::ParseIntError;
use std::path::Path;
use vstd::prelude::*;

verus! {

/// `String::push` appends one character at the end of the string.
#[verifier::external_body]
pub(crate) fn string_push(s: &mut String, c: char)
    ensures
        final(s)@ == old(s)@.push(c),
{
    s.push(c);
}

/// What `str::to_lowercase` returns for a text (Unicode lower-case mapping).
pub uninterp spec fn lowercase(s: Seq<char>) -> Seq<char>;

/// `str::to_lowercase`: the contract only ties the result to the text through
/// the name `lowercase`; the Unicode mapping itself is not written out.
#[verifier::external_body]
pub(crate) fn to_lowercase(s: &str) -> (r: String)
    ensures
        r@ == lowercase(s@),
{
    s.to_lowercase()
}

#[verifier::external_type_specification]
#[verifier::external_body]
pub struct ExParseIntError(ParseIntError);

/// An ASCII decimal digit.
pub open spec fn is_ascii_digit(c: char) -> bool {
    '0' <= c && c <= '9'
}

/// The digits of an unsigned integer text: the text without one leading `+`.
pub open spec fn unsigned_digits(s: Seq<char>) -> Seq<char> {
    if s.len() > 0 && s[0] == '+' {
        s.drop_first()
    } else {
        s
    }
}

/// The value of a sequence of ASCII decimal digits.
pub open spec fn digits_value(d: Seq<char>) -> nat
    decreases d.len(),
{
    if d.len() == 0 {
        0
    } else {
        digits_value(d.drop_last()) * 10 + ((d.last() as int - '0' as int) as nat)
    }
}

/// The value written by an unsigned integer text (an optional `+` followed by
/// at least one ASCII digit), or `None` for any other text.
pub open spec fn unsigned_text_value(s: Seq<char>) -> Option<nat> {
    let d = unsigned_digits(s);
    if d.len() > 0 && (forall|i: int| 0 <= i < d.len() ==> is_ascii_digit(#[trigger] d[i])) {
        Some(digits_value(d))
    } else {
        None
    }
}

/// `str::parse::<u16>`: succeeds exactly on an optional `+` followed by ASCII
/// digits whose value fits in a `u16`, and then returns that value.
#[verifier::external_body]
pub(crate) fn parse_u16(s: &str) -> (r: Result<u16, ParseIntError>)
    ensures
        r is Ok <==> (unsigned_text_value(s@) is Some && unsigned_text_value(s@)->0 <= u16::MAX),
        r matches Ok(v) ==> unsigned_text_value(s@) == Some(v as nat),
{
    s.parse::<u16>()
}

/// `str::parse::<u8>`: succeeds exactly on an optional `+` followed by ASCII
/// digits whose value fits in a `u8`, and then returns that value.
#[verifier::external_body]
pub(crate) fn parse_u8(s: &str) -> (r: Result<u8, ParseIntError>)
    ensures
        r is Ok <==> (unsigned_text_value(s@) is Some && unsigned_text_value(s@)->0 <= u8::MAX),
        r matches Ok(v) ==> unsigned_text_value(s@) == Some(v as nat),
{
    s.parse::<u8>()
}

/// What `Path::parent` returns for a path text, under the path rules of the
/// platform the crate is built for.
pub uninterp spec fn path_parent(p: Seq<char>) -> Option<Seq<char>>;

/// `Path::parent`, read back as text. The contract ties the result to the
/// argument through the name `path_parent` and does not spell out the
/// platform's component rules.
#[verifier::external_body]
pub(crate) fn parent_of(p: &str) -> (r: Option<String>)
    ensures
        r is Some <==> path_parent(p@) is Some,
        r matches Some(q) ==> q@ == path_parent(p@)->0,
{
    match Path::new(p).parent() {
        Some(q) => Some(q.to_string_lossy().into_owned()),
        None => None,
    }
}

/// What `Path::join` returns for a base and a path to adjoin (an absolute
/// `tail` replaces the base), under the platform's path rules.
pub uninterp spec fn path_joined(base: Seq<char>, tail: Seq<char>) -> Seq<char>;

/// `Path::join`, read back as text; tied to its arguments through `path_joined`.
#[verifier::external_body]
pub(crate) fn join_path(base: &str, tail: &str) -> (r: String)
    ensures
        r@ == path_joined(base@, tail@),
{
    Path::new(base).join(tail).to_string_lossy().into_owned()
}

/// What `Path::file_name` returns for a path text under the platform's rules.
pub uninterp spec fn path_file_name(p: Seq<char>) -> Option<Seq<char>>;

/// `Path::file_name`, read back as text; tied to its argument through `path_file_name`.
#[verifier::external_body]
pub(crate) fn file_name_of(p: &str) -> (r: Option<String>)
    ensures
        r is Some <==> path_file_name(p@) is Some,
        r matches Some(q) ==> q@ == path_file_name(p@)->0,
{
    match Path::new(p).file_name() {
        Some(q) => Some(q.to_string_lossy().into_owned()),
        None => None,
    }
}

/// What `Path::with_extension` returns for a path text and an extension.
pub uninterp spec fn path_with_extension(p: Seq<char>, extension: Seq<char>) -> Seq<char>;

/// `Path::with_extension`, read back as text; tied to its arguments through
/// `path_with_extension`. An extension holding a path separator makes it
/// panic, so none may.
#[verifier::external_body]
pub(crate) fn with_extension(p: &str, extension: &str) -> (r: String)
    requires
        forall|i: int| 0 <= i < extension@.len() ==> extension@[i] != '/' && extension@[i] != '\\',
    ensures
        r@ == path_with_extension(p@, extension@),
{
    Path::new(p).with_extension(extension).to_string_lossy().into_owned()
}

} // verus!
