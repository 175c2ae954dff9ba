//! Non-empty string slices.

use non_empty_slice::{EmptySlice, NonEmptySlice};
use std::str::Utf8Error;
use vstd::pervasive::unreached;
use vstd::prelude::*;
use vstd::utf8::{decode_utf8, encode_utf8, is_ascii_chars, valid_utf8};
use crate::bytes::{
    non_empty_slice_as_mut_slice, non_empty_slice_as_slice, non_empty_slice_from,
    non_empty_slice_from_mut, slice_bytes,
};
use crate::iter::{
    Bytes, CharIndices, Chars, EncodeUtf16, EscapeDebug, EscapeDefault, EscapeUnicode, Lines,
    SplitAsciiWhitespace, SplitWhitespace,
};
use crate::size::Size;
use crate::std_specs::{error_valid_up_to, is_valid_up_to};
use crate::text::{
    ascii_lower, ascii_upper, byte_len, eq_ignoring_ascii_case, is_boundary, lemma_byte_len_zero,
    lemma_decode_non_empty, lemma_round_trip, lemma_split, prefix, suffix, trimmed, trimmed_end,
    trimmed_start,
};

verus! {

/// The message of the error that reports an empty string.
pub const EMPTY_STR: &'static str = "the string is empty";

/// The error of a string slice that is empty.
///
/// It holds nothing: the slice that was rejected is still with the caller,
/// and is equal to any other empty slice.
#[derive(Debug)]
pub struct EmptyStr;

impl EmptyStr {
    /// A slice equal to the one that was rejected: an empty one.
    pub fn recover(self) -> (r: &'static str)
        ensures
            r@.len() == 0,
    {
        proof {
            reveal_strlit("");
        }
        ""
    }

    /// The message of the error.
    pub fn to_string(&self) -> (r: String)
        ensures
            r@ == EMPTY_STR@,
    {
        EMPTY_STR.to_owned()
    }
}

/// The error of non-empty bytes that are not valid UTF-8.
#[derive(Debug, Clone, Copy, PartialEq, Eq)]
pub struct NonEmptyUtf8Error {
    error: Utf8Error,
}

impl NonEmptyUtf8Error {
    /// The error of the failed validation.
    pub closed spec fn view(&self) -> Utf8Error {
        self.error
    }

    /// The length of the longest prefix of the rejected bytes that is valid
    /// UTF-8.
    pub open spec fn offset(&self) -> int {
        error_valid_up_to(self@)
    }

    /// Wraps the error of a failed validation.
    pub fn new(error: Utf8Error) -> (r: Self)
        ensures
            r@ == error,
    {
        Self { error }
    }

    /// The error of the failed validation.
    pub fn get(self) -> (r: Utf8Error)
        ensures
            r == self@,
    {
        self.error
    }

    /// The offset of the first byte that is not part of valid UTF-8.
    pub fn valid_up_to(&self) -> (r: usize)
        ensures
            r == self.offset(),
    {
        self.error.valid_up_to()
    }
}

/// The error of bytes that are empty, or else not valid UTF-8.
#[derive(Debug)]
pub enum MaybeEmptyUtf8Error {
    /// There are no bytes.
    Empty(EmptySlice),
    /// There are bytes, and they are not valid UTF-8.
    Utf8(NonEmptyUtf8Error),
}

/// Values that can be parsed from a non-empty string.
pub trait FromNonEmptyStr: Sized {
    /// The error of a failed parse.
    type Error;

    /// Whether parsing `chars` may give `result`.
    spec fn parsed(chars: Seq<char>, result: Result<Self, Self::Error>) -> bool;

    /// Parses a value from `string`.
    fn from_non_empty_str(string: NonEmptyStr<'_>) -> (r: Result<Self, Self::Error>)
        requires
            string.wf(),
        ensures
            Self::parsed(string@, r),
    ;
}

/// A string slice that is not empty.
///
/// It holds the slice that it was made from, and nothing else: making one
/// copies no bytes.
#[derive(Debug, Clone, Copy, PartialEq, Eq, PartialOrd, Ord, Hash)]
pub struct NonEmptyStr<'s> {
    inner: &'s str,
}

impl<'s> NonEmptyStr<'s> {
    /// The characters of the string.
    pub closed spec fn view(&self) -> Seq<char> {
        self.inner@
    }

    /// The invariant of the type: there is at least one character.
    pub open spec fn wf(&self) -> bool {
        self@.len() > 0
    }

    /// Wraps `string`, unless it is empty.
    pub fn try_new(string: &'s str) -> (r: Result<Self, EmptyStr>)
        ensures
            r is Ok <==> string@.len() > 0,
            r is Ok ==> r->Ok_0.wf() && r->Ok_0@ == string@,
    {
        Self::try_from_str(string)
    }

    /// Wraps `string`, unless it is empty; the error is dropped.
    pub fn new(string: &'s str) -> (r: Option<Self>)
        ensures
            r is Some <==> string@.len() > 0,
            r is Some ==> r->Some_0.wf() && r->Some_0@ == string@,
    {
        Self::from_str(string)
    }

    /// Wraps `string`, which the caller knows not to be empty.
    pub fn new_unchecked(string: &'s str) -> (r: Self)
        requires
            string@.len() > 0,
        ensures
            r.wf(),
            r@ == string@,
    {
        Self::from_str_unchecked(string)
    }

    /// Wraps `string`, unless it is empty.
    pub fn try_from_str(string: &'s str) -> (r: Result<Self, EmptyStr>)
        ensures
            r is Ok <==> string@.len() > 0,
            r is Ok ==> r->Ok_0.wf() && r->Ok_0@ == string@,
    {
        if string.is_empty() {
            return Err(EmptyStr);
        }
        Ok(Self::from_str_unchecked(string))
    }

    /// Wraps `string`, unless it is empty; the error is dropped.
    pub fn from_str(string: &'s str) -> (r: Option<Self>)
        ensures
            r is Some <==> string@.len() > 0,
            r is Some ==> r->Some_0.wf() && r->Some_0@ == string@,
    {
        if string.is_empty() {
            return None;
        }
        Some(Self::from_str_unchecked(string))
    }

    /// Wraps `string`, which the caller knows not to be empty.
    pub fn from_str_unchecked(string: &'s str) -> (r: Self)
        requires
            string@.len() > 0,
        ensures
            r.wf(),
            r@ == string@,
    {
        Self { inner: string }
    }

    /// The slice that is wrapped.
    pub fn as_str(&self) -> (r: &'s str)
        ensures
            r@ == self@,
    {
        self.inner
    }

    /// A copy of the string as a `String`.
    pub fn to_string(&self) -> (r: String)
        ensures
            r@ == self@,
    {
        self.inner.to_owned()
    }

    /// Whether the string is empty, which it never is.
    pub fn is_empty(&self) -> (r: bool)
        ensures
            !r,
    {
        false
    }

    /// The length of the string in bytes.
    pub fn len(&self) -> (r: Size)
        requires
            self.wf(),
        ensures
            r.wf(),
            r@ == byte_len(self@),
    {
        proof {
            lemma_byte_len_zero(self@);
        }
        let len: usize = self.inner.as_bytes().len();
        Size::new_unchecked(len)
    }

    /// The bytes of the string: its UTF-8 encoding.
    pub fn as_bytes(&self) -> (r: &'s [u8])
        ensures
            r@ == encode_utf8(self@),
    {
        self.inner.as_bytes()
    }

    /// The bytes of the string as a non-empty slice.
    pub fn as_non_empty_bytes(&self) -> (r: &'s NonEmptySlice<u8>)
        requires
            self.wf(),
        ensures
            slice_bytes(r) == encode_utf8(self@),
    {
        proof {
            lemma_byte_len_zero(self@);
        }
        match non_empty_slice_from(self.inner.as_bytes()) {
            Ok(bytes) => bytes,
            Err(_) => unreached(),
        }
    }

    /// Reads `bytes` as a non-empty string. Emptiness is tested first, then
    /// validity.
    pub fn from_utf8(bytes: &'s [u8]) -> (r: Result<Self, MaybeEmptyUtf8Error>)
        ensures
            r is Ok <==> bytes@.len() > 0 && valid_utf8(bytes@),
            r is Ok ==> r->Ok_0.wf() && r->Ok_0@ == decode_utf8(bytes@),
            r is Ok ==> encode_utf8(r->Ok_0@) == bytes@,
            bytes@.len() == 0 ==> r matches Err(MaybeEmptyUtf8Error::Empty(_)),
            bytes@.len() > 0 && !valid_utf8(bytes@) ==> (r matches Err(
                MaybeEmptyUtf8Error::Utf8(e),
            ) && is_valid_up_to(bytes@, e.offset())),
    {
        match non_empty_slice_from(bytes) {
            Err(empty) => Err(MaybeEmptyUtf8Error::Empty(empty)),
            Ok(non_empty) => match Self::from_non_empty_utf8(non_empty) {
                Ok(string) => Ok(string),
                Err(error) => Err(MaybeEmptyUtf8Error::Utf8(error)),
            },
        }
    }

    /// Reads non-empty bytes as a non-empty string.
    pub fn from_non_empty_utf8(non_empty: &'s NonEmptySlice<u8>) -> (r: Result<
        Self,
        NonEmptyUtf8Error,
    >)
        ensures
            r is Ok <==> valid_utf8(slice_bytes(non_empty)),
            r is Ok ==> r->Ok_0.wf() && r->Ok_0@ == decode_utf8(slice_bytes(non_empty)),
            r is Ok ==> encode_utf8(r->Ok_0@) == slice_bytes(non_empty),
            r is Err ==> is_valid_up_to(slice_bytes(non_empty), r->Err_0.offset()),
    {
        let bytes = non_empty_slice_as_slice(non_empty);
        match core::str::from_utf8(bytes) {
            Ok(string) => {
                proof {
                    lemma_decode_non_empty(bytes@);
                }
                Ok(Self::from_str_unchecked(string))
            },
            Err(error) => Err(NonEmptyUtf8Error::new(error)),
        }
    }

    /// Reads non-empty bytes, which the caller knows to be valid UTF-8, as a
    /// non-empty string.
    pub fn from_non_empty_utf8_unchecked(non_empty: &'s NonEmptySlice<u8>) -> (r: Self)
        requires
            valid_utf8(slice_bytes(non_empty)),
        ensures
            r.wf(),
            r@ == decode_utf8(slice_bytes(non_empty)),
            encode_utf8(r@) == slice_bytes(non_empty),
    {
        Self::from_utf8_unchecked(non_empty_slice_as_slice(non_empty))
    }

    /// Reads `bytes`, which the caller knows to be non-empty and valid UTF-8,
    /// as a non-empty string.
    pub fn from_utf8_unchecked(bytes: &'s [u8]) -> (r: Self)
        requires
            bytes@.len() > 0,
            valid_utf8(bytes@),
        ensures
            r.wf(),
            r@ == decode_utf8(bytes@),
            encode_utf8(r@) == bytes@,
    {
        match core::str::from_utf8(bytes) {
            Ok(string) => {
                proof {
                    lemma_decode_non_empty(bytes@);
                }
                Self::from_str_unchecked(string)
            },
            Err(_) => unreached(),
        }
    }

    /// The bytes of the string, to walk through.
    pub fn bytes(&self) -> (r: Bytes<'s>)
        ensures
            r.source() == self@,
    {
        Bytes::new(*self)
    }

    /// The characters of the string, to walk through.
    pub fn chars(&self) -> (r: Chars<'s>)
        ensures
            r.source() == self@,
    {
        Chars::new(*self)
    }

    /// The characters of the string and their byte offsets, to walk through.
    pub fn char_indices(&self) -> (r: CharIndices<'s>)
        ensures
            r.source() == self@,
    {
        CharIndices::new(*self)
    }

    /// The UTF-16 encoding of the string, to walk through.
    pub fn encode_utf16(&self) -> (r: EncodeUtf16<'s>)
        ensures
            r.source() == self@,
    {
        EncodeUtf16::new(*self)
    }

    /// The characters of the string, escaped as for debugging output, to walk
    /// through.
    pub fn escape_debug(&self) -> (r: EscapeDebug<'s>)
        ensures
            r.source() == self@,
    {
        EscapeDebug::new(*self)
    }

    /// The characters of the string, escaped so as to be legal in the literals
    /// of many languages, to walk through.
    pub fn escape_default(&self) -> (r: EscapeDefault<'s>)
        ensures
            r.source() == self@,
    {
        EscapeDefault::new(*self)
    }

    /// The characters of the string, each escaped by its number, to walk
    /// through.
    pub fn escape_unicode(&self) -> (r: EscapeUnicode<'s>)
        ensures
            r.source() == self@,
    {
        EscapeUnicode::new(*self)
    }

    /// The non-empty pieces of the string between ASCII whitespace, to walk
    /// through.
    pub fn split_ascii_whitespace(&self) -> (r: SplitAsciiWhitespace<'s>)
        ensures
            r.source() == self@,
    {
        SplitAsciiWhitespace::new(*self)
    }

    /// The non-empty pieces of the string between whitespace, to walk through.
    pub fn split_whitespace(&self) -> (r: SplitWhitespace<'s>)
        ensures
            r.source() == self@,
    {
        SplitWhitespace::new(*self)
    }

    /// The lines of the string, to walk through.
    pub fn lines(&self) -> (r: Lines<'s>)
        ensures
            r.source() == self@,
    {
        Lines::new(*self)
    }

    /// Whether the byte offset `index` is a boundary between characters. The
    /// start and the end of the string are boundaries; an offset behind the
    /// end is none.
    pub fn is_char_boundary(&self, index: usize) -> (r: bool)
        ensures
            r == is_boundary(self@, index as int),
    {
        self.inner.is_char_boundary(index)
    }

    /// Splits the string in two at the byte offset `index`, which is a
    /// boundary. The first part is not empty, since the offset is not zero.
    pub fn split_at(&self, index: Size) -> (r: (Self, &'s str))
        requires
            index.wf(),
            is_boundary(self@, index@ as int),
        ensures
            r.0.wf(),
            r.0@ == prefix(self@, index@ as int),
            r.1@ == suffix(self@, index@ as int),
            r.0@ + r.1@ == self@,
    {
        let (left, right) = self.inner.split_at(index.get());
        proof {
            lemma_split(self@, index@ as int);
            lemma_round_trip(left@);
            lemma_round_trip(right@);
        }
        (Self::from_str_unchecked(left), right)
    }

    /// Splits the string in two at the byte offset `index`, if that is a
    /// boundary.
    pub fn split_at_checked(&self, index: Size) -> (r: Option<(Self, &'s str)>)
        requires
            index.wf(),
        ensures
            r is Some <==> is_boundary(self@, index@ as int),
            r is Some ==> {
                &&& r->Some_0.0.wf()
                &&& r->Some_0.0@ == prefix(self@, index@ as int)
                &&& r->Some_0.1@ == suffix(self@, index@ as int)
                &&& r->Some_0.0@ + r->Some_0.1@ == self@
            },
    {
        if !self.inner.is_char_boundary(index.get()) {
            return None;
        }
        Some(self.split_at(index))
    }

    /// Parses a value from the string.
    pub fn parse_non_empty<F: FromNonEmptyStr>(&self) -> (r: Result<F, F::Error>)
        requires
            self.wf(),
        ensures
            F::parsed(self@, r),
    {
        F::from_non_empty_str(*self)
    }

    /// Whether every character of the string is in the ASCII range.
    pub fn is_ascii(&self) -> (r: bool)
        ensures
            r == is_ascii_chars(self@),
    {
        self.inner.is_ascii()
    }
    /// Whether the two strings are the same but for the case of ASCII
    /// letters.
    pub fn eq_ignore_ascii_case(&self, other: NonEmptyStr<'_>) -> (r: bool)
        ensures
            r == eq_ignoring_ascii_case(self@, other@),
    {
        self.inner.eq_ignore_ascii_case(other.inner)
    }

    /// The string without the ASCII whitespace at its start. It may be
    /// empty.
    pub fn trim_ascii_start(&self) -> (r: &'s str)
        ensures
            r@ == trimmed_start(self@),
    {
        self.inner.trim_ascii_start()
    }

    /// The string without the ASCII whitespace at its end. It may be empty.
    pub fn trim_ascii_end(&self) -> (r: &'s str)
        ensures
            r@ == trimmed_end(self@),
    {
        self.inner.trim_ascii_end()
    }

    /// The string without the ASCII whitespace at its start and at its end.
    /// It may be empty.
    pub fn trim_ascii(&self) -> (r: &'s str)
        ensures
            r@ == trimmed(self@),
    {
        self.inner.trim_ascii()
    }
}

/// A string slice that is not empty and can be changed where it stands.
///
/// The field is public so that contracts can speak of what the slice is in
/// the end, when the borrow is over; the functions that take a value of this
/// type ask for `wf`.
#[derive(Debug)]
#[non_exhaustive]
pub struct NonEmptyMutStr<'s> {
    /// The slice that is wrapped.
    pub inner: &'s mut str,
}

impl<'s> NonEmptyStr<'s> {
    /// Wraps `string` for changing it, unless it is empty.
    pub fn try_new_mut(string: &'s mut str) -> (r: Result<NonEmptyMutStr<'s>, EmptyStr>)
        ensures
            r is Ok <==> old(string)@.len() > 0,
            r is Ok ==> r->Ok_0.wf() && r->Ok_0@ == old(string)@,
            r is Ok ==> final(string)@ == final(r->Ok_0.inner)@,
            r is Err ==> final(string)@ == old(string)@,
    {
        Self::try_from_mut_str(string)
    }

    /// Wraps `string` for changing it, unless it is empty; the error is
    /// dropped.
    pub fn new_mut(string: &'s mut str) -> (r: Option<NonEmptyMutStr<'s>>)
        ensures
            r is Some <==> old(string)@.len() > 0,
            r is Some ==> r->Some_0.wf() && r->Some_0@ == old(string)@,
            r is Some ==> final(string)@ == final(r->Some_0.inner)@,
            r is None ==> final(string)@ == old(string)@,
    {
        Self::from_mut_str(string)
    }

    /// Wraps `string`, which the caller knows not to be empty, for changing
    /// it.
    pub fn new_unchecked_mut(string: &'s mut str) -> (r: NonEmptyMutStr<'s>)
        requires
            old(string)@.len() > 0,
        ensures
            r.wf(),
            r@ == old(string)@,
            final(string)@ == final(r.inner)@,
    {
        Self::from_mut_str_unchecked(string)
    }

    /// Wraps `string` for changing it, unless it is empty.
    pub fn try_from_mut_str(string: &'s mut str) -> (r: Result<NonEmptyMutStr<'s>, EmptyStr>)
        ensures
            r is Ok <==> old(string)@.len() > 0,
            r is Ok ==> r->Ok_0.wf() && r->Ok_0@ == old(string)@,
            r is Ok ==> final(string)@ == final(r->Ok_0.inner)@,
            r is Err ==> final(string)@ == old(string)@,
    {
        if string.is_empty() {
            return Err(EmptyStr);
        }
        Ok(Self::from_mut_str_unchecked(string))
    }

    /// Wraps `string` for changing it, unless it is empty; the error is
    /// dropped.
    pub fn from_mut_str(string: &'s mut str) -> (r: Option<NonEmptyMutStr<'s>>)
        ensures
            r is Some <==> old(string)@.len() > 0,
            r is Some ==> r->Some_0.wf() && r->Some_0@ == old(string)@,
            r is Some ==> final(string)@ == final(r->Some_0.inner)@,
            r is None ==> final(string)@ == old(string)@,
    {
        if string.is_empty() {
            return None;
        }
        Some(Self::from_mut_str_unchecked(string))
    }

    /// Wraps `string`, which the caller knows not to be empty, for changing
    /// it.
    pub fn from_mut_str_unchecked(string: &'s mut str) -> (r: NonEmptyMutStr<'s>)
        requires
            old(string)@.len() > 0,
        ensures
            r.wf(),
            r@ == old(string)@,
            final(string)@ == final(r.inner)@,
    {
        NonEmptyMutStr { inner: string }
    }
}

impl<'s> NonEmptyStr<'s> {
    /// Reads `bytes` as a non-empty string that can be changed. Emptiness is
    /// tested first, then validity.
    pub fn from_utf8_mut(bytes: &'s mut [u8]) -> (r: Result<
        NonEmptyMutStr<'s>,
        MaybeEmptyUtf8Error,
    >)
        ensures
            r is Ok <==> old(bytes)@.len() > 0 && valid_utf8(old(bytes)@),
            r is Ok ==> r->Ok_0.wf() && r->Ok_0@ == decode_utf8(old(bytes)@),
            r is Ok ==> final(bytes)@ == encode_utf8(final(r->Ok_0.inner)@),
            old(bytes)@.len() == 0 ==> r matches Err(MaybeEmptyUtf8Error::Empty(_)),
            old(bytes)@.len() > 0 && !valid_utf8(old(bytes)@) ==> (r matches Err(
                MaybeEmptyUtf8Error::Utf8(e),
            ) && is_valid_up_to(old(bytes)@, e.offset())),
            r is Err ==> final(bytes)@ == old(bytes)@,
    {
        match non_empty_slice_from_mut(bytes) {
            Err(empty) => Err(MaybeEmptyUtf8Error::Empty(empty)),
            Ok(non_empty) => match Self::from_non_empty_utf8_mut(non_empty) {
                Ok(string) => Ok(string),
                Err(error) => Err(MaybeEmptyUtf8Error::Utf8(error)),
            },
        }
    }

    /// Reads non-empty bytes as a non-empty string that can be changed.
    pub fn from_non_empty_utf8_mut(non_empty: &'s mut NonEmptySlice<u8>) -> (r: Result<
        NonEmptyMutStr<'s>,
        NonEmptyUtf8Error,
    >)
        ensures
            r is Ok <==> valid_utf8(slice_bytes(old(non_empty))),
            r is Ok ==> r->Ok_0.wf() && r->Ok_0@ == decode_utf8(slice_bytes(old(non_empty))),
            r is Ok ==> slice_bytes(final(non_empty)) == encode_utf8(final(r->Ok_0.inner)@),
            r is Err ==> is_valid_up_to(slice_bytes(old(non_empty)), r->Err_0.offset()),
            r is Err ==> slice_bytes(final(non_empty)) == slice_bytes(old(non_empty)),
    {
        let bytes = non_empty_slice_as_mut_slice(non_empty);
        proof {
            if valid_utf8(bytes@) {
                lemma_decode_non_empty(bytes@);
            }
        }
        match core::str::from_utf8_mut(bytes) {
            Ok(string) => Ok(Self::from_mut_str_unchecked(string)),
            Err(error) => Err(NonEmptyUtf8Error::new(error)),
        }
    }

    /// Reads non-empty bytes, which the caller knows to be valid UTF-8, as a
    /// non-empty string that can be changed.
    pub fn from_non_empty_utf8_unchecked_mut(non_empty: &'s mut NonEmptySlice<u8>) -> (r:
        NonEmptyMutStr<'s>)
        requires
            valid_utf8(slice_bytes(old(non_empty))),
        ensures
            r.wf(),
            r@ == decode_utf8(slice_bytes(old(non_empty))),
            slice_bytes(final(non_empty)) == encode_utf8(final(r.inner)@),
    {
        Self::from_utf8_unchecked_mut(non_empty_slice_as_mut_slice(non_empty))
    }

    /// Reads `bytes`, which the caller knows to be non-empty and valid UTF-8,
    /// as a non-empty string that can be changed.
    pub fn from_utf8_unchecked_mut(bytes: &'s mut [u8]) -> (r: NonEmptyMutStr<'s>)
        requires
            old(bytes)@.len() > 0,
            valid_utf8(old(bytes)@),
        ensures
            r.wf(),
            r@ == decode_utf8(old(bytes)@),
            final(bytes)@ == encode_utf8(final(r.inner)@),
    {
        proof {
            lemma_decode_non_empty(bytes@);
        }
        match core::str::from_utf8_mut(bytes) {
            Ok(string) => Self::from_mut_str_unchecked(string),
            Err(_) => unreached(),
        }
    }
}

impl<'s> NonEmptyMutStr<'s> {
    /// The characters of the string, as they are now.
    pub open spec fn view(&self) -> Seq<char> {
        (*self.inner)@
    }

    /// The invariant of the type: there is at least one character.
    pub open spec fn wf(&self) -> bool {
        self@.len() > 0
    }

    /// The whole string as a slice.
    pub fn as_str(&self) -> (r: &str)
        ensures
            r@ == self@,
    {
        &*self.inner
    }

    /// The whole string as a non-empty slice.
    pub fn as_non_empty_str(&self) -> (r: NonEmptyStr<'_>)
        requires
            self.wf(),
        ensures
            r.wf(),
            r@ == self@,
    {
        NonEmptyStr::from_str_unchecked(self.as_str())
    }

    /// The whole string as a slice that can be changed where it stands.
    pub fn as_mut_str(&mut self) -> (r: &mut str)
        ensures
            r@ == old(self)@,
            final(self)@ == final(r)@,
            final(final(self).inner)@ == final(old(self).inner)@,
    {
        &mut *self.inner
    }

    /// Turns each ASCII small letter into its capital, where it stands.
    pub fn make_ascii_uppercase(&mut self)
        requires
            old(self).wf(),
        ensures
            final(self).wf(),
            final(self)@ == old(self)@.map_values(|c: char| ascii_upper(c)),
            final(final(self).inner)@ == final(old(self).inner)@,
    {
        self.inner.make_ascii_uppercase();
    }

    /// Turns each ASCII capital letter into its small letter, where it
    /// stands.
    pub fn make_ascii_lowercase(&mut self)
        requires
            old(self).wf(),
        ensures
            final(self).wf(),
            final(self)@ == old(self)@.map_values(|c: char| ascii_lower(c)),
            final(final(self).inner)@ == final(old(self).inner)@,
    {
        self.inner.make_ascii_lowercase();
    }

    /// Splits the string in two at the byte offset `index`, which is a
    /// boundary. The first part is not empty, since the offset is not zero.
    /// What becomes of the two parts becomes of the string.
    pub fn split_at_mut(&mut self, index: Size) -> (r: (NonEmptyMutStr<'_>, &mut str))
        requires
            index.wf(),
            is_boundary(old(self)@, index@ as int),
        ensures
            r.0.wf(),
            r.0@ == prefix(old(self)@, index@ as int),
            r.1@ == suffix(old(self)@, index@ as int),
            r.0@ + r.1@ == old(self)@,
            final(self)@ == final(r.0.inner)@ + final(r.1)@,
            final(final(self).inner)@ == final(old(self).inner)@,
    {
        proof {
            lemma_split(self@, index@ as int);
        }
        let (left, right) = self.inner.split_at_mut(index.get());
        (NonEmptyStr::from_mut_str_unchecked(left), right)
    }

    /// Splits the string in two at the byte offset `index`, if that is a
    /// boundary.
    pub fn split_at_mut_checked(&mut self, index: Size) -> (r: Option<
        (NonEmptyMutStr<'_>, &mut str),
    >)
        requires
            index.wf(),
        ensures
            r is Some <==> is_boundary(old(self)@, index@ as int),
            r is Some ==> {
                &&& r->Some_0.0.wf()
                &&& r->Some_0.0@ == prefix(old(self)@, index@ as int)
                &&& r->Some_0.1@ == suffix(old(self)@, index@ as int)
                &&& r->Some_0.0@ + r->Some_0.1@ == old(self)@
                &&& final(self)@ == final(r->Some_0.0.inner)@ + final(r->Some_0.1)@
            },
            r is None ==> final(self)@ == old(self)@,
            final(final(self).inner)@ == final(old(self).inner)@,
    {
        if !self.inner.is_char_boundary(index.get()) {
            return None;
        }
        Some(self.split_at_mut(index))
    }
}

} // verus!
