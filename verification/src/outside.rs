//! The trusted boundary to the outside crates the runtime builds on:
//! inflection of kind names and query-string encoding. Each wrapper's
//! contract states what the outside function's source shows; the named
//! results stand for values that are functions of the arguments alone.

use vstd::prelude::*;

verus! {

/// The English plural that inflection assigns to a word.
pub uninterp spec fn plural_of(s: Seq<char>) -> Seq<char>;

/// Whether inflection considers the string to be in PascalCase.
pub uninterp spec fn pascal_case(s: Seq<char>) -> bool;

/// The `application/x-www-form-urlencoded` encoding of a string.
pub uninterp spec fn query_encoded(s: Seq<char>) -> Seq<char>;

/// Relies on inflector's `to_plural`: the English plural of the word, a
/// function of the characters alone.
#[verifier::external_body]
pub(crate) fn to_plural_word(s: &str) -> (r: String)
    ensures
        r@ == plural_of(s@),
{
    inflector::string::pluralize::to_plural(s)
}

/// Relies on inflector's `is_pascal_case`: whether the string is already
/// PascalCase, a function of the characters alone.
#[verifier::external_body]
pub(crate) fn is_pascal_case_word(s: &str) -> (r: bool)
    ensures
        r == pascal_case(s@),
{
    inflector::cases::pascalcase::is_pascal_case(s)
}

/// One character after ASCII lowercasing: capitals `A`-`Z` shift to their
/// lowercase form, every other character is unchanged.
pub open spec fn lower_char(c: char) -> char {
    if 'A' <= c && c <= 'Z' {
        ((c as u8) + 32) as char
    } else {
        c
    }
}

/// The string after ASCII lowercasing, character by character.
pub open spec fn lower_ascii(s: Seq<char>) -> Seq<char> {
    s.map_values(|c: char| lower_char(c))
}

/// Relies on `str::to_ascii_lowercase`: ASCII capitals map to their
/// lowercase form and every other character is unchanged.
#[verifier::external_body]
pub(crate) fn ascii_lowercase(s: &str) -> (r: String)
    ensures
        r@ == lower_ascii(s@),
{
    s.to_ascii_lowercase()
}

/// The UTF-8 encoding of a character sequence.
pub uninterp spec fn utf8_of(s: Seq<char>) -> Seq<u8>;

/// Relies on `String::into_bytes`: the UTF-8 encoding of the characters.
#[verifier::external_body]
pub(crate) fn string_into_bytes(s: String) -> (r: Vec<u8>)
    ensures
        r@ == utf8_of(s@),
{
    s.into_bytes()
}

/// Relies on `url::form_urlencoded::Serializer` (`new`, `append_pair`,
/// `finish`): appending a pair to a non-empty target pushes `&`, the
/// encoded name, `=`, and the encoded value.
#[verifier::external_body]
pub(crate) fn append_query_pair(url: String, name: &str, value: &str) -> (r: String)
    requires
        url@.len() > 0,
    ensures
        r@ == url@ + "&"@ + query_encoded(name@) + "="@ + query_encoded(value@),
{
    let mut ser = url::form_urlencoded::Serializer::new(url);
    ser.append_pair(name, value);
    ser.finish()
}

} // verus!
