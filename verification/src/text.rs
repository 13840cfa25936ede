//! Text primitives the ledger relies on, with what each one is taken to do.
//!
//! Cells, identifiers and form inputs are all text. The operations here are
//! the standard library's and `unicode-normalization`'s; their results are
//! described over sequences of characters so that the rest of the crate can
//! speak about them.

use unicode_normalization::UnicodeNormalization;
use vstd::prelude::*;
use vstd::string::StringSliceAdditionalSpecFns;
use vstd::utf8::{
    decode_utf8, encode_utf8, encode_utf8_decode_utf8, encode_utf8_valid_utf8, is_char_boundary,
};

verus! {

/// A piece of text as the contracts see it.
pub type Text = Seq<char>;

/// Whether a character has the Unicode `White_Space` property, which is
/// what `char::is_whitespace` and `str::trim` go by: the controls from tab
/// to carriage return, the space, next line, the no-break space, the ogham
/// space mark, the spaces from en quad to hair space, the line and the
/// paragraph separator, the narrow no-break space, the medium mathematical
/// space and the ideographic space.
pub open spec fn white_space(c: char) -> bool {
    let code = c as u32;
    ||| 0x0009 <= code <= 0x000D
    ||| code == 0x0020
    ||| code == 0x0085
    ||| code == 0x00A0
    ||| code == 0x1680
    ||| 0x2000 <= code <= 0x200A
    ||| code == 0x2028
    ||| code == 0x2029
    ||| code == 0x202F
    ||| code == 0x205F
    ||| code == 0x3000
}

/// What `str::to_uppercase` returns for the given text.
pub uninterp spec fn uppercased(s: Text) -> Text;

/// What `str::to_lowercase` returns for the given text.
pub uninterp spec fn lowercased(s: Text) -> Text;

/// The NFKC normal form of the given text.
pub uninterp spec fn nfkc_form(s: Text) -> Text;

/// The text without its leading white space.
pub open spec fn strip_leading(s: Text) -> Text
    decreases s.len(),
{
    if s.len() > 0 && white_space(s[0]) {
        strip_leading(s.drop_first())
    } else {
        s
    }
}

/// The text without its trailing white space.
pub open spec fn strip_trailing(s: Text) -> Text
    decreases s.len(),
{
    if s.len() > 0 && white_space(s.last()) {
        strip_trailing(s.drop_last())
    } else {
        s
    }
}

/// The text with leading and trailing white space removed.
pub open spec fn trimmed(s: Text) -> Text {
    strip_trailing(strip_leading(s))
}

/// Whether `needle` occurs in `hay` as a contiguous run of characters.
pub open spec fn has_substring(hay: Text, needle: Text) -> bool {
    exists|i: int|
        0 <= i && i + needle.len() <= hay.len() && #[trigger] hay.subrange(
            i,
            i + needle.len(),
        ) == needle
}

/// The position of the first occurrence of `c` in `s`, or the length of `s`
/// when there is none.
pub open spec fn first_index_of(s: Text, c: char) -> int
    decreases s.len(),
{
    if s.len() == 0 {
        0
    } else if s[0] == c {
        0
    } else {
        1 + first_index_of(s.drop_first(), c)
    }
}

/// The text up to the first `c`, and what follows that `c` if there is one.
pub open spec fn split_at_first(s: Text, c: char) -> (Text, Option<Text>) {
    let i = first_index_of(s, c);
    if i < s.len() {
        (s.subrange(0, i), Some(s.subrange(i + 1, s.len() as int)))
    } else {
        (s, None)
    }
}

/// Whether every character is an ASCII decimal digit.
pub open spec fn all_digits(s: Text) -> bool {
    forall|i: int| 0 <= i < s.len() ==> '0' <= #[trigger] s[i] <= '9'
}

/// The number that a run of decimal digits denotes.
pub open spec fn digits_value(s: Text) -> int
    decreases s.len(),
{
    if s.len() == 0 {
        0
    } else {
        digits_value(s.drop_last()) * 10 + (s.last() as int - '0' as int)
    }
}

/// The integer written as an optional sign followed by at least one decimal
/// digit, if the text has that shape.
pub open spec fn signed_decimal(s: Text) -> Option<int> {
    let signed = s.len() > 0 && (s[0] == '+' || s[0] == '-');
    let digits = if signed {
        s.drop_first()
    } else {
        s
    };
    if digits.len() == 0 || !all_digits(digits) {
        None
    } else if signed && s[0] == '-' {
        Some(-digits_value(digits))
    } else {
        Some(digits_value(digits))
    }
}

/// The value of the text read as an `i8`, if it is one.
pub open spec fn parsed_i8(s: Text) -> Option<i8> {
    match signed_decimal(s) {
        Some(v) => if i8::MIN <= v <= i8::MAX {
            Some(v as i8)
        } else {
            None
        },
        None => None,
    }
}

/// The value of the text read as an `i32`, if it is one.
pub open spec fn parsed_i32(s: Text) -> Option<i32> {
    match signed_decimal(s) {
        Some(v) => if i32::MIN <= v <= i32::MAX {
            Some(v as i32)
        } else {
            None
        },
        None => None,
    }
}

/// The decimal digits of a natural number, without leading zeros.
pub open spec fn natural_digits(n: nat) -> Text
    decreases n,
{
    let last = (('0' as int + (n % 10) as int) as u8) as char;
    if n < 10 {
        seq![last]
    } else {
        natural_digits(n / 10).push(last)
    }
}

/// The decimal rendering of an integer, with a leading `-` when negative.
pub open spec fn decimal_text(n: int) -> Text {
    if n < 0 {
        seq!['-'] + natural_digits((-n) as nat)
    } else {
        natural_digits(n as nat)
    }
}

/// `str == str` compares the two texts character by character.
pub assume_specification[ <str as PartialEq>::eq ](a: &str, b: &str) -> (same: bool)
    ensures
        same == (a@ == b@),
;

/// `str::trim` returns the slice left after removing leading and trailing
/// white space.
pub assume_specification[ str::trim ](s: &str) -> (inner: &str)
    ensures
        inner@ == trimmed(s@),
;

/// `str::to_uppercase` returns the upper-case mapping of the text.
pub assume_specification[ str::to_uppercase ](s: &str) -> (upper: String)
    ensures
        upper@ == uppercased(s@),
;

/// `str::to_lowercase` returns the lower-case mapping of the text.
pub assume_specification[ str::to_lowercase ](s: &str) -> (lower: String)
    ensures
        lower@ == lowercased(s@),
;

/// `UnicodeNormalization::nfkc` yields the characters of the NFKC normal
/// form; collected, they are the normalized text.
#[verifier::external_body]
pub(crate) fn to_nfkc(s: &str) -> (normal: String)
    ensures
        normal@ == nfkc_form(s@),
{
    s.nfkc().collect()
}

/// `str::contains` with a string pattern reports whether the pattern occurs
/// anywhere in the text.
#[verifier::external_body]
pub(crate) fn contains_text(hay: &str, needle: &str) -> (found: bool)
    ensures
        found == has_substring(hay@, needle@),
{
    hay.contains(needle)
}

/// `str::starts_with` with a string pattern reports whether the text begins
/// with the pattern.
#[verifier::external_body]
pub(crate) fn starts_with_text(s: &str, prefix: &str) -> (yes: bool)
    ensures
        yes == prefix@.is_prefix_of(s@),
{
    s.starts_with(prefix)
}

/// `str::split_once` with a character cuts the text at the first occurrence
/// of that character and drops it; without an occurrence it returns nothing.
#[verifier::external_body]
pub(crate) fn split_once_at<'a>(s: &'a str, c: char) -> (parts: Option<(&'a str, &'a str)>)
    ensures
        match parts {
            Some((head, tail)) => split_at_first(s@, c) == (head@, Some(tail@)),
            None => split_at_first(s@, c) == (s@, None::<Text>),
        },
{
    s.split_once(c)
}

/// `str::parse::<i32>` accepts an optional sign followed by decimal digits
/// and nothing else, and fails when the value does not fit.
#[verifier::external_body]
pub(crate) fn parse_i32(s: &str) -> (value: Option<i32>)
    ensures
        value == parsed_i32(s@),
{
    s.parse::<i32>().ok()
}

/// `i64::to_string` writes the value in decimal.
#[verifier::external_body]
pub(crate) fn i64_to_string(n: i64) -> (digits: String)
    ensures
        digits@ == decimal_text(n as int),
{
    n.to_string()
}

/// `u64::to_string` writes the value in decimal.
#[verifier::external_body]
pub(crate) fn u64_to_string(n: u64) -> (digits: String)
    ensures
        digits@ == decimal_text(n as int),
{
    n.to_string()
}

/// The last character boundary of UTF-8 bytes at or before `limit`.
pub open spec fn boundary_before(bytes: Seq<u8>, limit: int) -> int
    decreases limit,
{
    if limit <= 0 {
        0
    } else if is_char_boundary(bytes, limit) {
        limit
    } else {
        boundary_before(bytes, limit - 1)
    }
}

/// The longest beginning of the text whose UTF-8 encoding has at most
/// `limit` bytes; the text itself if it is that short.
pub open spec fn beginning_within(s: Text, limit: int) -> Text {
    let bytes = encode_utf8(s);
    if bytes.len() <= limit {
        s
    } else {
        decode_utf8(bytes.subrange(0, boundary_before(bytes, limit)))
    }
}

/// Cuts the text down to at most `limit` bytes without splitting a
/// character.
pub fn head_within(s: &str, limit: usize) -> (head: &str)
    ensures
        head@ == beginning_within(s@, limit as int),
{
    broadcast use encode_utf8_valid_utf8, encode_utf8_decode_utf8;

    let ghost bytes = s.spec_bytes();
    if s.as_bytes().len() <= limit {
        return s;
    }
    let mut cut: usize = limit;
    while cut > 0 && !s.is_char_boundary(cut)
        invariant
            cut <= limit < bytes.len(),
            bytes == s.spec_bytes(),
            boundary_before(bytes, limit as int) == boundary_before(bytes, cut as int),
        decreases cut,
    {
        cut -= 1;
    }
    assert(is_char_boundary(bytes, cut as int));
    let (head, _) = s.split_at(cut);
    assert(head@ == decode_utf8(head.spec_bytes()));
    head
}

/// Reads the text as an `i8`: an optional sign followed by decimal digits
/// and nothing else, of a value that fits.
pub fn parse_i8(s: &str) -> (value: Option<i8>)
    ensures
        value == parsed_i8(s@),
{
    match parse_i32(s) {
        Some(wide) => {
            if -128 <= wide && wide <= 127 {
                Some(wide as i8)
            } else {
                None
            }
        },
        None => None,
    }
}

/// Whether two texts are the same, character by character.
pub fn same_text(a: &str, b: &str) -> (same: bool)
    ensures
        same == (a@ == b@),
{
    *a == *b
}

} // verus!
