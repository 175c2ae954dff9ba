//! Contracts for the functions of the standard library that the string types
//! are built on.
//!
//! None of these contracts is proved: each restates what the documentation of
//! the function promises. A function that panics on some input has that input
//! excluded by its `requires`.

use std::borrow::Cow;
use std::collections::TryReserveError;
use std::str::Utf8Error;
use std::string::FromUtf8Error;
use vstd::prelude::*;
use vstd::utf8::*;
use crate::text::{
    ascii_lower, ascii_upper, ascii_whitespace_pieces, between, byte_len, char_width,
    eq_ignoring_ascii_case, escaped_default, escaped_unicode, is_boundary, lines_of, pieces,
    prefix, repeated, suffix, trimmed, trimmed_end, trimmed_start, utf16_of,
};

verus! {

/// The error of a failed UTF-8 validation.
#[verifier::external_type_specification]
#[verifier::external_body]
pub struct ExUtf8Error(Utf8Error);

/// The error of a failed conversion of a byte vector to a `String`.
#[verifier::external_type_specification]
#[verifier::external_body]
pub struct ExFromUtf8Error(FromUtf8Error);

/// The offset that a `Utf8Error` reports: the length of the longest valid
/// prefix of the bytes that were checked.
pub uninterp spec fn error_valid_up_to(error: Utf8Error) -> int;

/// The bytes that a `FromUtf8Error` hands back.
pub uninterp spec fn error_bytes(error: FromUtf8Error) -> Seq<u8>;

/// The `Utf8Error` inside a `FromUtf8Error`.
pub uninterp spec fn error_cause(error: FromUtf8Error) -> Utf8Error;

/// What `String::from_utf8_lossy` makes of `bytes`.
pub uninterp spec fn utf8_lossy(bytes: Seq<u8>) -> Seq<char>;

/// What `str::to_lowercase` makes of `chars`.
pub uninterp spec fn lowercase(chars: Seq<char>) -> Seq<char>;

/// What `str::to_uppercase` makes of `chars`.
pub uninterp spec fn uppercase(chars: Seq<char>) -> Seq<char>;

/// What `str::escape_debug` makes of `chars`.
pub uninterp spec fn escaped_debug(chars: Seq<char>) -> Seq<char>;

/// Whether `c` is whitespace, as `char::is_whitespace` tells.
pub uninterp spec fn is_whitespace(c: char) -> bool;

/// Whether `valid` is the length of the longest prefix of `bytes` that is
/// valid UTF-8, `bytes` as a whole being invalid.
pub open spec fn is_valid_up_to(bytes: Seq<u8>, valid: int) -> bool {
    &&& 0 <= valid < bytes.len()
    &&& valid_utf8(bytes.subrange(0, valid))
    &&& forall|longer: int|
        valid < longer <= bytes.len() ==> !valid_utf8(#[trigger] bytes.subrange(0, longer))
}

/// Whether a buffer of `len` bytes can be allocated.
pub open spec fn fits(len: int) -> bool {
    len <= isize::MAX
}

/// `char::len_utf8`: the number of bytes of the character's encoding.
pub assume_specification[ char::len_utf8 ](c: char) -> (r: usize)
    ensures
        r == char_width(c),
;

/// `core::str::from_utf8`: succeeds exactly on valid UTF-8, with the string
/// that the bytes encode; on failure the error reports the length of the
/// longest valid prefix.
pub assume_specification[ core::str::from_utf8 ](bytes: &[u8]) -> (r: Result<&str, Utf8Error>)
    ensures
        r is Ok <==> valid_utf8(bytes@),
        r is Ok ==> r->Ok_0@ == decode_utf8(bytes@),
        r is Err ==> is_valid_up_to(bytes@, error_valid_up_to(r->Err_0)),
;

/// `core::str::from_utf8_mut`: as `core::str::from_utf8`, for bytes that can
/// be changed: what becomes of the string becomes of the bytes.
pub assume_specification[ core::str::from_utf8_mut ](bytes: &mut [u8]) -> (r: Result<
    &mut str,
    Utf8Error,
>)
    ensures
        r is Ok <==> valid_utf8(old(bytes)@),
        r is Ok ==> r->Ok_0@ == decode_utf8(old(bytes)@),
        r is Ok ==> final(bytes)@ == encode_utf8(final(r->Ok_0)@),
        r is Err ==> is_valid_up_to(old(bytes)@, error_valid_up_to(r->Err_0)),
        r is Err ==> final(bytes)@ == old(bytes)@,
;

/// `Utf8Error::valid_up_to`: the offset that the error reports.
pub assume_specification[ Utf8Error::valid_up_to ](error: &Utf8Error) -> (r: usize)
    ensures
        r == error_valid_up_to(*error),
;

/// `String::from_utf8`: succeeds exactly on valid UTF-8, with the string that
/// the bytes encode; the error holds the bytes and the cause.
pub assume_specification[ String::from_utf8 ](bytes: Vec<u8>) -> (r: Result<String, FromUtf8Error>)
    ensures
        r is Ok <==> valid_utf8(bytes@),
        r is Ok ==> r->Ok_0@ == decode_utf8(bytes@),
        r is Err ==> error_bytes(r->Err_0) == bytes@,
        r is Err ==> is_valid_up_to(bytes@, error_valid_up_to(error_cause(r->Err_0))),
;

/// `FromUtf8Error::utf8_error`: the cause of the failure.
pub assume_specification[ FromUtf8Error::utf8_error ](error: &FromUtf8Error) -> (r: Utf8Error)
    ensures
        r == error_cause(*error),
;

/// `FromUtf8Error::into_bytes`: the bytes whose conversion failed.
pub assume_specification[ FromUtf8Error::into_bytes ](error: FromUtf8Error) -> (r: Vec<u8>)
    ensures
        r@ == error_bytes(error),
;

/// `String::from_utf8_lossy`: valid UTF-8 is borrowed as it is; anything else
/// becomes a new string in which each invalid sequence is replaced by U+FFFD.
pub assume_specification<'a>[ String::from_utf8_lossy ](bytes: &'a [u8]) -> (r: Cow<'a, str>)
    ensures
        r@ == utf8_lossy(bytes@),
        valid_utf8(bytes@) ==> r is Borrowed && r@ == decode_utf8(bytes@),
        !valid_utf8(bytes@) ==> r is Owned && r@.contains('\u{FFFD}'),
;

/// `String::len`: the length in bytes.
pub assume_specification[ String::len ](s: &String) -> (r: usize)
    ensures
        r == byte_len(s@),
;

/// `String::capacity`: at least the length in bytes.
pub assume_specification[ String::capacity ](s: &String) -> (r: usize)
    ensures
        r >= byte_len(s@),
;

/// `String::with_capacity`: an empty string.
pub assume_specification[ String::with_capacity ](capacity: usize) -> (r: String)
    requires
        fits(capacity as int),
    ensures
        r@ == Seq::<char>::empty(),
;

/// `String::into_bytes`: the UTF-8 encoding.
pub assume_specification[ String::into_bytes ](s: String) -> (r: Vec<u8>)
    ensures
        r@ == encode_utf8(s@),
;

/// `String::into_boxed_str`: the same characters.
pub assume_specification[ String::into_boxed_str ](s: String) -> (r: Box<str>)
    ensures
        r@ == s@,
;

/// `str::into_string`: the same characters.
pub assume_specification[ std::primitive::str::into_string ](s: Box<str>) -> (r: String)
    ensures
        r@ == s@,
;

/// `str::into_boxed_bytes`: the UTF-8 encoding.
pub assume_specification[ std::primitive::str::into_boxed_bytes ](s: Box<str>) -> (r: Box<[u8]>)
    ensures
        r@ == encode_utf8(s@),
;

/// `String::push`: appends the character.
pub assume_specification[ String::push ](s: &mut String, c: char)
    requires
        fits((byte_len(old(s)@) + char_width(c)) as int),
    ensures
        final(s)@ == old(s)@.push(c),
;

/// `String::push_str`: appends the string.
pub assume_specification[ String::push_str ](s: &mut String, other: &str)
    requires
        fits((byte_len(old(s)@) + byte_len(other@)) as int),
    ensures
        final(s)@ == old(s)@ + other@,
;

/// `String::pop`: removes the last character, if there is one.
pub assume_specification[ String::pop ](s: &mut String) -> (r: Option<char>)
    ensures
        old(s)@.len() == 0 ==> r is None && final(s)@ == old(s)@,
        old(s)@.len() > 0 ==> r == Some(old(s)@.last()) && final(s)@ == old(s)@.drop_last(),
;

/// `String::insert`: puts the character at the byte offset, which must be a
/// boundary.
pub assume_specification[ String::insert ](s: &mut String, index: usize, c: char)
    requires
        is_boundary(old(s)@, index as int),
        fits((byte_len(old(s)@) + char_width(c)) as int),
    ensures
        final(s)@ == prefix(old(s)@, index as int).push(c) + suffix(old(s)@, index as int),
;

/// `String::insert_str`: puts the string at the byte offset, which must be a
/// boundary.
pub assume_specification[ String::insert_str ](s: &mut String, index: usize, other: &str)
    requires
        is_boundary(old(s)@, index as int),
        fits((byte_len(old(s)@) + byte_len(other@)) as int),
    ensures
        final(s)@ == prefix(old(s)@, index as int) + other@ + suffix(old(s)@, index as int),
;

/// `String::remove`: takes out the character that starts at the byte offset,
/// which must be a boundary before the end.
pub assume_specification[ String::remove ](s: &mut String, index: usize) -> (r: char)
    requires
        is_boundary(old(s)@, index as int),
        index < byte_len(old(s)@),
    ensures
        r == suffix(old(s)@, index as int).first(),
        final(s)@ == prefix(old(s)@, index as int) + suffix(old(s)@, index as int).drop_first(),
;

/// `String::truncate`: keeps the bytes before the new length, which must be a
/// boundary if it is shorter than the string; does nothing otherwise.
pub assume_specification[ String::truncate ](s: &mut String, new_len: usize)
    requires
        new_len < byte_len(old(s)@) ==> is_boundary(old(s)@, new_len as int),
    ensures
        new_len < byte_len(old(s)@) ==> final(s)@ == prefix(old(s)@, new_len as int),
        new_len >= byte_len(old(s)@) ==> final(s)@ == old(s)@,
;

/// `String::split_off`: keeps the bytes before the offset, which must be a
/// boundary, and returns the rest.
pub assume_specification[ String::split_off ](s: &mut String, at: usize) -> (r: String)
    requires
        is_boundary(old(s)@, at as int),
    ensures
        final(s)@ == prefix(old(s)@, at as int),
        r@ == suffix(old(s)@, at as int),
;

/// `String::reserve`: leaves the contents alone.
pub assume_specification[ String::reserve ](s: &mut String, additional: usize)
    requires
        fits(byte_len(old(s)@) + additional),
    ensures
        final(s)@ == old(s)@,
;

/// `String::reserve_exact`: leaves the contents alone.
pub assume_specification[ String::reserve_exact ](s: &mut String, additional: usize)
    requires
        fits(byte_len(old(s)@) + additional),
    ensures
        final(s)@ == old(s)@,
;

/// `String::try_reserve`: leaves the contents alone, whether it succeeds or
/// not, and fails if the capacity that is asked for is more than can be
/// allocated.
pub assume_specification[ String::try_reserve ](s: &mut String, additional: usize) -> (r: Result<
    (),
    TryReserveError,
>)
    ensures
        final(s)@ == old(s)@,
        !fits(byte_len(old(s)@) + additional) ==> r is Err,
;

/// `String::try_reserve_exact`: leaves the contents alone, whether it
/// succeeds or not, and fails if the capacity that is asked for is more than
/// can be allocated.
pub assume_specification[ String::try_reserve_exact ](s: &mut String, additional: usize) -> (r:
    Result<(), TryReserveError>)
    ensures
        final(s)@ == old(s)@,
        !fits(byte_len(old(s)@) + additional) ==> r is Err,
;

/// `String::shrink_to_fit`: leaves the contents alone.
pub assume_specification[ String::shrink_to_fit ](s: &mut String)
    ensures
        final(s)@ == old(s)@,
;

/// `String::shrink_to`: leaves the contents alone.
pub assume_specification[ String::shrink_to ](s: &mut String, min_capacity: usize)
    ensures
        final(s)@ == old(s)@,
;

/// `str::to_lowercase`: the lowercase equivalent.
pub assume_specification[ std::primitive::str::to_lowercase ](s: &str) -> (r: String)
    ensures
        r@ == lowercase(s@),
;

/// `str::to_uppercase`: the uppercase equivalent.
pub assume_specification[ std::primitive::str::to_uppercase ](s: &str) -> (r: String)
    ensures
        r@ == uppercase(s@),
;

/// `str::repeat`: the string written `count` times.
pub assume_specification[ std::primitive::str::repeat ](s: &str, count: usize) -> (r: String)
    requires
        fits(count * byte_len(s@)),
    ensures
        r@ == repeated(s@, count as nat),
;

/// `str::eq_ignore_ascii_case`: whether the two strings are the same but for
/// the case of ASCII letters.
pub assume_specification[ std::primitive::str::eq_ignore_ascii_case ](s: &str, other: &str) -> (r:
    bool)
    ensures
        r == eq_ignoring_ascii_case(s@, other@),
;

/// `str::trim_ascii_start`: the string without the ASCII whitespace at its
/// start.
pub assume_specification[ std::primitive::str::trim_ascii_start ](s: &str) -> (r: &str)
    ensures
        r@ == trimmed_start(s@),
;

/// `str::trim_ascii_end`: the string without the ASCII whitespace at its end.
pub assume_specification[ std::primitive::str::trim_ascii_end ](s: &str) -> (r: &str)
    ensures
        r@ == trimmed_end(s@),
;

/// `str::trim_ascii`: the string without the ASCII whitespace at its start
/// and at its end.
pub assume_specification[ std::primitive::str::trim_ascii ](s: &str) -> (r: &str)
    ensures
        r@ == trimmed(s@),
;

/// `str::encode_utf16`, collected: the UTF-16 encoding of the string.
#[verifier::external_body]
pub(crate) fn str_encode_utf16(s: &str) -> (r: Vec<u16>)
    ensures
        r@ == utf16_of(s@),
{
    s.encode_utf16().collect()
}

/// `str::escape_debug`, collected: the characters escaped as for debugging
/// output.
#[verifier::external_body]
pub(crate) fn str_escape_debug(s: &str) -> (r: Vec<char>)
    ensures
        r@ == escaped_debug(s@),
{
    s.escape_debug().collect()
}

/// `str::escape_default`, collected: each character escaped so as to be legal
/// in the literals of many languages.
#[verifier::external_body]
pub(crate) fn str_escape_default(s: &str) -> (r: Vec<char>)
    ensures
        r@ == escaped_default(s@),
{
    s.escape_default().collect()
}

/// `str::escape_unicode`, collected: each character escaped by its number.
#[verifier::external_body]
pub(crate) fn str_escape_unicode(s: &str) -> (r: Vec<char>)
    ensures
        r@ == escaped_unicode(s@),
{
    s.escape_unicode().collect()
}

/// `str::lines`, collected: the lines of the string, without their line
/// endings.
#[verifier::external_body]
pub(crate) fn str_lines<'a>(s: &'a str) -> (r: Vec<&'a str>)
    ensures
        r@.len() == lines_of(s@).len(),
        forall|i: int| 0 <= i < r@.len() ==> (#[trigger] r@[i])@ == lines_of(s@)[i],
{
    s.lines().collect()
}

/// `str::split_whitespace`, collected: the pieces of the string between
/// whitespace, which is what `char::is_whitespace` tells to be so.
#[verifier::external_body]
pub(crate) fn str_split_whitespace<'a>(s: &'a str) -> (r: Vec<&'a str>)
    ensures
        r@.len() == pieces(s@, |c: char| is_whitespace(c)).len(),
        forall|i: int|
            0 <= i < r@.len() ==> (#[trigger] r@[i])@ == pieces(s@, |c: char| is_whitespace(c))[i],
{
    s.split_whitespace().collect()
}

/// `str::split_ascii_whitespace`, collected: the pieces of the string between
/// ASCII whitespace.
#[verifier::external_body]
pub(crate) fn str_split_ascii_whitespace<'a>(s: &'a str) -> (r: Vec<&'a str>)
    ensures
        r@.len() == ascii_whitespace_pieces(s@).len(),
        forall|i: int|
            0 <= i < r@.len() ==> (#[trigger] r@[i])@ == ascii_whitespace_pieces(s@)[i],
{
    s.split_ascii_whitespace().collect()
}

/// `String::leak`: the same characters, for as long as the caller likes.
pub assume_specification<'a>[ String::leak ](s: String) -> (r: &'a mut str)
    ensures
        r@ == s@,
;

/// `String::extend_from_within`: appends the bytes between the two offsets,
/// which must be boundaries, the first not behind the second.
#[verifier::external_body]
pub(crate) fn string_extend_from_within(s: &mut String, start: usize, end: usize)
    requires
        start <= end,
        is_boundary(old(s)@, start as int),
        is_boundary(old(s)@, end as int),
        fits(byte_len(old(s)@) + end - start),
    ensures
        final(s)@ == old(s)@ + between(old(s)@, start as int, end as int),
{
    s.extend_from_within(start..end)
}

/// `String::as_mut_str`: the whole string, to be changed where it stands.
pub assume_specification[ String::as_mut_str ](s: &mut String) -> (r: &mut str)
    ensures
        r@ == old(s)@,
        final(s)@ == final(r)@,
;

/// `str::make_ascii_uppercase`: turns each ASCII small letter into its
/// capital, where it stands.
pub assume_specification[ std::primitive::str::make_ascii_uppercase ](s: &mut str)
    ensures
        final(s)@ == old(s)@.map_values(|c: char| ascii_upper(c)),
;

/// `str::make_ascii_lowercase`: turns each ASCII capital letter into its
/// small letter, where it stands.
pub assume_specification[ std::primitive::str::make_ascii_lowercase ](s: &mut str)
    ensures
        final(s)@ == old(s)@.map_values(|c: char| ascii_lower(c)),
;

/// `str::split_at_mut`: the string in two parts at the byte offset, which
/// must be a boundary; what becomes of the parts becomes of the string.
pub assume_specification[ std::primitive::str::split_at_mut ](s: &mut str, mid: usize) -> (r: (
    &mut str,
    &mut str,
))
    requires
        is_boundary(old(s)@, mid as int),
    ensures
        r.0@ == prefix(old(s)@, mid as int),
        r.1@ == suffix(old(s)@, mid as int),
        final(s)@ == final(r.0)@ + final(r.1)@,
;

} // verus!
