//! Non-empty strings that own their buffer and can grow.

use non_empty_slice::{EmptySlice, EmptyVec, NonEmptySlice, NonEmptyVec};
use std::borrow::Cow;
use std::collections::TryReserveError;
use vstd::pervasive::unreached;
use vstd::prelude::*;
use vstd::string::StrSliceExecFns;
use vstd::utf8::{decode_utf8, encode_utf8, valid_utf8};
use crate::bytes::{
    non_empty_slice_as_slice, non_empty_slice_from, non_empty_vec_as_slice, non_empty_vec_from,
    non_empty_vec_into_vec, rejected_bytes, slice_bytes, vec_bytes,
};
use crate::cow::NonEmptyCowStr;
use crate::size::Size;
use crate::std_specs::{
    fits, is_valid_up_to, lowercase, string_extend_from_within, uppercase, utf8_lossy,
};
use crate::str::{FromNonEmptyStr, NonEmptyMutStr, NonEmptyStr, NonEmptyUtf8Error};
use crate::text::{
    ascii_lower, ascii_upper, between, byte_len, char_width, is_boundary, joined,
    lemma_byte_len_concat, lemma_byte_len_drop_first, lemma_byte_len_drop_last,
    lemma_byte_len_push, lemma_byte_len_take, lemma_byte_len_zero, lemma_decode_non_empty,
    lemma_encode_single, lemma_joined_push, lemma_joined_take, lemma_repeated_len,
    lemma_single_char, lemma_split, prefix, repeated, suffix,
};

verus! {

/// The message of the error that reports an empty string.
pub const EMPTY_STRING: &'static str = "the string is empty";

/// The error of a string that is empty; it holds that string.
#[derive(Debug)]
pub struct EmptyString {
    string: String,
}

impl EmptyString {
    /// The string that was rejected, buffer and all.
    pub closed spec fn string(&self) -> String {
        self.string
    }

    /// The characters of the string that was rejected: none.
    pub open spec fn view(&self) -> Seq<char> {
        self.string()@
    }

    /// The invariant of the type: the string that is held is empty.
    pub open spec fn wf(&self) -> bool {
        self@.len() == 0
    }

    pub(crate) fn new(string: String) -> (r: Self)
        requires
            string@.len() == 0,
        ensures
            r.wf(),
            r.string() == string,
    {
        Self { string }
    }

    /// The string that was rejected.
    pub fn get(self) -> (r: String)
        ensures
            r == self.string(),
    {
        self.string
    }

    /// The string that was rejected, for the caller to use its buffer again.
    pub fn recover(self) -> (r: String)
        ensures
            r == self.string(),
    {
        self.get()
    }

    /// The message of the error.
    pub fn to_string(&self) -> (r: String)
        ensures
            r@ == EMPTY_STRING@,
    {
        EMPTY_STRING.to_owned()
    }
}

/// The error of a non-empty byte vector that is not valid UTF-8; it holds
/// that vector.
#[derive(Debug)]
pub struct FromNonEmptyUtf8Error {
    error: NonEmptyUtf8Error,
    bytes: NonEmptyVec<u8>,
}

impl FromNonEmptyUtf8Error {
    /// The bytes that were rejected.
    pub closed spec fn bytes(&self) -> Seq<u8> {
        vec_bytes(&self.bytes)
    }

    /// The error of the failed validation.
    pub closed spec fn error(&self) -> NonEmptyUtf8Error {
        self.error
    }

    /// The length of the longest prefix of the rejected bytes that is valid
    /// UTF-8.
    pub open spec fn offset(&self) -> int {
        self.error().offset()
    }

    /// The invariant of the type: the bytes are not valid UTF-8, and the
    /// offset says where they stop being so.
    pub open spec fn wf(&self) -> bool {
        is_valid_up_to(self.bytes(), self.offset())
    }

    pub(crate) fn new(error: NonEmptyUtf8Error, bytes: NonEmptyVec<u8>) -> (r: Self)
        requires
            is_valid_up_to(vec_bytes(&bytes), error.offset()),
        ensures
            r.wf(),
            r.bytes() == vec_bytes(&bytes),
            r.error() == error,
    {
        Self { error, bytes }
    }

    /// The bytes that were rejected, as a non-empty slice.
    pub fn as_non_empty_bytes(&self) -> (r: &NonEmptySlice<u8>)
        ensures
            slice_bytes(r) == self.bytes(),
    {
        non_empty_vec_as_slice(&self.bytes)
    }

    /// The bytes that were rejected.
    pub fn into_non_empty_bytes(self) -> (r: NonEmptyVec<u8>)
        ensures
            vec_bytes(&r) == self.bytes(),
    {
        self.bytes
    }

    /// The error of the failed validation.
    pub fn non_empty_error(&self) -> (r: NonEmptyUtf8Error)
        ensures
            r == self.error(),
    {
        self.error
    }

    /// Both the error of the failed validation and the bytes that were
    /// rejected.
    pub fn recover(self) -> (r: (NonEmptyUtf8Error, NonEmptyVec<u8>))
        ensures
            r.0 == self.error(),
            vec_bytes(&r.1) == self.bytes(),
    {
        (self.non_empty_error(), self.into_non_empty_bytes())
    }
}

/// The error of a byte vector that is empty, or else not valid UTF-8.
#[derive(Debug)]
pub enum FromMaybeEmptyUtf8Error {
    /// There are no bytes.
    Empty(EmptyVec<u8>),
    /// There are bytes, and they are not valid UTF-8.
    Utf8(FromNonEmptyUtf8Error),
}

/// A string that is not empty and owns its buffer.
///
/// It grows as far as memory allows. It shrinks only as far as one character
/// is left: an operation that would take the last character away does
/// nothing.
#[derive(Debug, PartialEq, Eq, PartialOrd, Ord, Hash)]
pub struct NonEmptyString {
    inner: String,
}

impl Clone for NonEmptyString {
    fn clone(&self) -> (r: Self)
        ensures
            r@ == self@,
    {
        Self { inner: self.inner.clone() }
    }
}

impl FromNonEmptyStr for NonEmptyString {
    type Error = core::convert::Infallible;

    open spec fn parsed(chars: Seq<char>, result: Result<Self, Self::Error>) -> bool {
        result is Ok && result->Ok_0.wf() && result->Ok_0@ == chars
    }

    fn from_non_empty_str(string: NonEmptyStr<'_>) -> (r: Result<Self, Self::Error>) {
        Ok(NonEmptyString::from_non_empty_str(string))
    }
}

impl NonEmptyString {
    /// The characters of the string.
    pub closed spec fn view(&self) -> Seq<char> {
        self.inner@
    }

    /// The invariant of the type: there is at least one character.
    pub open spec fn wf(&self) -> bool {
        self@.len() > 0
    }

    /// Wraps `string`, unless it is empty; the error gives the string back.
    pub fn new(string: String) -> (r: Result<Self, EmptyString>)
        ensures
            r is Ok <==> string@.len() > 0,
            r is Ok ==> r->Ok_0.wf() && r->Ok_0@ == string@,
            r is Err ==> r->Err_0.wf() && r->Err_0.string() == string,
    {
        if string.as_str().is_empty() {
            return Err(EmptyString::new(string));
        }
        Ok(Self::new_unchecked(string))
    }

    /// Wraps `string`, unless it is empty; the error, and the string with it,
    /// is dropped.
    pub fn new_ok(string: String) -> (r: Option<Self>)
        ensures
            r is Some <==> string@.len() > 0,
            r is Some ==> r->Some_0.wf() && r->Some_0@ == string@,
    {
        match Self::new(string) {
            Ok(non_empty) => Some(non_empty),
            Err(_) => None,
        }
    }

    /// Wraps `inner`, which the caller knows not to be empty.
    pub fn new_unchecked(inner: String) -> (r: Self)
        requires
            inner@.len() > 0,
        ensures
            r.wf(),
            r@ == inner@,
    {
        Self { inner }
    }

    /// Copies `string` into a buffer of its own.
    pub fn from_non_empty_str(string: NonEmptyStr<'_>) -> (r: Self)
        requires
            string.wf(),
        ensures
            r.wf(),
            r@ == string@,
    {
        Self::new_unchecked(string.as_str().to_owned())
    }

    /// A copy of the string as a `String`.
    pub fn to_string(&self) -> (r: String)
        ensures
            r@ == self@,
    {
        self.inner.clone()
    }

    /// Whether the string is empty, which it never is.
    pub fn is_empty(&self) -> (r: bool)
        ensures
            !r,
    {
        false
    }

    /// The length of the string in bytes.
    pub fn len(&self) -> (r: Size)
        requires
            self.wf(),
        ensures
            r.wf(),
            r@ == byte_len(self@),
    {
        proof {
            lemma_byte_len_zero(self@);
        }
        let len: usize = self.inner.len();
        Size::new_unchecked(len)
    }

    /// The capacity of the buffer in bytes: at least the length.
    pub fn capacity(&self) -> (r: Size)
        requires
            self.wf(),
        ensures
            r.wf(),
            r@ >= byte_len(self@),
    {
        proof {
            lemma_byte_len_zero(self@);
        }
        let capacity: usize = self.inner.capacity();
        Size::new_unchecked(capacity)
    }

    /// The whole string as a slice.
    pub fn as_str(&self) -> (r: &str)
        ensures
            r@ == self@,
    {
        self.inner.as_str()
    }

    /// The whole string as a non-empty slice. Nothing is copied.
    pub fn as_non_empty_str(&self) -> (r: NonEmptyStr<'_>)
        requires
            self.wf(),
        ensures
            r.wf(),
            r@ == self@,
    {
        NonEmptyStr::from_str_unchecked(self.as_str())
    }

    /// The whole string as a slice that can be changed where it stands.
    pub fn as_mut_str(&mut self) -> (r: &mut str)
        ensures
            r@ == old(self)@,
            final(self)@ == final(r)@,
    {
        self.inner.as_mut_str()
    }

    /// The whole string as a non-empty slice that can be changed where it
    /// stands.
    pub fn as_non_empty_mut_str(&mut self) -> (r: NonEmptyMutStr<'_>)
        requires
            old(self).wf(),
        ensures
            r.wf(),
            r@ == old(self)@,
            final(self)@ == final(r.inner)@,
    {
        NonEmptyStr::from_mut_str_unchecked(self.as_mut_str())
    }

    /// The bytes of the string: its UTF-8 encoding.
    pub fn as_bytes(&self) -> (r: &[u8])
        ensures
            r@ == encode_utf8(self@),
    {
        self.as_str().as_bytes()
    }

    /// The bytes of the string as a non-empty slice.
    pub fn as_non_empty_bytes(&self) -> (r: &NonEmptySlice<u8>)
        requires
            self.wf(),
        ensures
            slice_bytes(r) == encode_utf8(self@),
    {
        self.as_non_empty_str().as_non_empty_bytes()
    }

    /// The string that is wrapped.
    pub fn as_string(&self) -> (r: &String)
        ensures
            r@ == self@,
    {
        &self.inner
    }

    /// Reads `bytes` as a non-empty string, putting U+FFFD in the place of
    /// whatever is not valid UTF-8; fails only if there are no bytes.
    pub fn from_utf8_lossy(bytes: &[u8]) -> (r: Result<NonEmptyCowStr<'_>, EmptySlice>)
        ensures
            r is Ok <==> bytes@.len() > 0,
            r is Ok ==> {
                &&& r->Ok_0.wf()
                &&& r->Ok_0@ == utf8_lossy(bytes@)
                &&& r->Ok_0 is Borrowed <==> valid_utf8(bytes@)
                &&& valid_utf8(bytes@) ==> r->Ok_0@ == decode_utf8(bytes@)
                &&& !valid_utf8(bytes@) ==> r->Ok_0@.contains('\u{FFFD}')
            },
    {
        match non_empty_slice_from(bytes) {
            Ok(non_empty) => Ok(Self::from_non_empty_utf8_lossy(non_empty)),
            Err(empty) => Err(empty),
        }
    }

    /// Reads `bytes` as a non-empty string of its own, putting U+FFFD in the
    /// place of whatever is not valid UTF-8; fails only if there are no
    /// bytes, and then gives them back.
    pub fn from_utf8_lossy_owned(bytes: Vec<u8>) -> (r: Result<Self, EmptyVec<u8>>)
        ensures
            r is Ok <==> bytes@.len() > 0,
            r is Ok ==> {
                &&& r->Ok_0.wf()
                &&& r->Ok_0@ == utf8_lossy(bytes@)
                &&& valid_utf8(bytes@) ==> r->Ok_0@ == decode_utf8(bytes@)
                &&& !valid_utf8(bytes@) ==> r->Ok_0@.contains('\u{FFFD}')
            },
            r is Err ==> rejected_bytes(&r->Err_0) == bytes@,
    {
        match non_empty_vec_from(bytes) {
            Ok(non_empty) => Ok(Self::from_non_empty_utf8_lossy_owned(non_empty)),
            Err(empty) => Err(empty),
        }
    }

    /// Reads non-empty bytes as a non-empty string, putting U+FFFD in the
    /// place of whatever is not valid UTF-8. Valid bytes are borrowed; for
    /// others a new string is made.
    pub fn from_non_empty_utf8_lossy(non_empty: &NonEmptySlice<u8>) -> (r: NonEmptyCowStr<'_>)
        ensures
            r.wf(),
            r@ == utf8_lossy(slice_bytes(non_empty)),
            r is Borrowed <==> valid_utf8(slice_bytes(non_empty)),
            valid_utf8(slice_bytes(non_empty)) ==> r@ == decode_utf8(slice_bytes(non_empty)),
            !valid_utf8(slice_bytes(non_empty)) ==> r@.contains('\u{FFFD}'),
    {
        let bytes = non_empty_slice_as_slice(non_empty);
        proof {
            if valid_utf8(bytes@) {
                lemma_decode_non_empty(bytes@);
            }
        }
        match String::from_utf8_lossy(bytes) {
            Cow::Owned(string) => NonEmptyCowStr::Owned(Self::new_unchecked(string)),
            Cow::Borrowed(string) => NonEmptyCowStr::Borrowed(
                NonEmptyStr::from_str_unchecked(string),
            ),
        }
    }

    /// Reads a non-empty byte vector as a non-empty string, putting U+FFFD in
    /// the place of whatever is not valid UTF-8.
    pub fn from_non_empty_utf8_lossy_owned(non_empty: NonEmptyVec<u8>) -> (r: Self)
        ensures
            r.wf(),
            r@ == utf8_lossy(vec_bytes(&non_empty)),
            valid_utf8(vec_bytes(&non_empty)) ==> r@ == decode_utf8(vec_bytes(&non_empty)),
            !valid_utf8(vec_bytes(&non_empty)) ==> r@.contains('\u{FFFD}'),
    {
        let cow = Self::from_non_empty_utf8_lossy(non_empty_vec_as_slice(&non_empty));
        if let NonEmptyCowStr::Owned(string) = cow {
            string
        } else {
            Self::from_non_empty_utf8_unchecked(non_empty)
        }
    }

    /// Reads a byte vector as a non-empty string. Emptiness is tested first,
    /// then validity; either error gives the bytes back.
    pub fn from_utf8(bytes: Vec<u8>) -> (r: Result<Self, FromMaybeEmptyUtf8Error>)
        ensures
            r is Ok <==> bytes@.len() > 0 && valid_utf8(bytes@),
            r is Ok ==> r->Ok_0.wf() && r->Ok_0@ == decode_utf8(bytes@),
            r is Ok ==> encode_utf8(r->Ok_0@) == bytes@,
            bytes@.len() == 0 ==> (r matches Err(FromMaybeEmptyUtf8Error::Empty(e))
                && rejected_bytes(&e) == bytes@),
            bytes@.len() > 0 && !valid_utf8(bytes@) ==> (r matches Err(
                FromMaybeEmptyUtf8Error::Utf8(e),
            ) && e.wf() && e.bytes() == bytes@),
    {
        match non_empty_vec_from(bytes) {
            Err(empty) => Err(FromMaybeEmptyUtf8Error::Empty(empty)),
            Ok(non_empty) => match Self::from_non_empty_utf8(non_empty) {
                Ok(string) => Ok(string),
                Err(error) => Err(FromMaybeEmptyUtf8Error::Utf8(error)),
            },
        }
    }

    /// Reads a non-empty byte vector as a non-empty string; the error gives
    /// the bytes back.
    pub fn from_non_empty_utf8(non_empty: NonEmptyVec<u8>) -> (r: Result<
        Self,
        FromNonEmptyUtf8Error,
    >)
        ensures
            r is Ok <==> valid_utf8(vec_bytes(&non_empty)),
            r is Ok ==> r->Ok_0.wf() && r->Ok_0@ == decode_utf8(vec_bytes(&non_empty)),
            r is Ok ==> encode_utf8(r->Ok_0@) == vec_bytes(&non_empty),
            r is Err ==> r->Err_0.wf() && r->Err_0.bytes() == vec_bytes(&non_empty),
    {
        let bytes = non_empty_vec_into_vec(non_empty);
        match String::from_utf8(bytes) {
            Ok(string) => {
                proof {
                    lemma_decode_non_empty(bytes@);
                }
                Ok(Self::new_unchecked(string))
            },
            Err(error) => {
                let cause = NonEmptyUtf8Error::new(error.utf8_error());
                match non_empty_vec_from(error.into_bytes()) {
                    Ok(rejected) => Err(FromNonEmptyUtf8Error::new(cause, rejected)),
                    Err(_) => unreached(),
                }
            },
        }
    }

    /// Reads a non-empty byte vector, which the caller knows to be valid
    /// UTF-8, as a non-empty string.
    pub fn from_non_empty_utf8_unchecked(non_empty: NonEmptyVec<u8>) -> (r: Self)
        requires
            valid_utf8(vec_bytes(&non_empty)),
        ensures
            r.wf(),
            r@ == decode_utf8(vec_bytes(&non_empty)),
            encode_utf8(r@) == vec_bytes(&non_empty),
    {
        Self::from_utf8_unchecked(non_empty_vec_into_vec(non_empty))
    }

    /// Reads a byte vector, which the caller knows to be non-empty and valid
    /// UTF-8, as a non-empty string.
    pub fn from_utf8_unchecked(bytes: Vec<u8>) -> (r: Self)
        requires
            bytes@.len() > 0,
            valid_utf8(bytes@),
        ensures
            r.wf(),
            r@ == decode_utf8(bytes@),
            encode_utf8(r@) == bytes@,
    {
        match String::from_utf8(bytes) {
            Ok(string) => {
                proof {
                    lemma_decode_non_empty(bytes@);
                }
                Self::new_unchecked(string)
            },
            Err(_) => unreached(),
        }
    }

    /// The string that is wrapped.
    pub fn into_string(self) -> (r: String)
        ensures
            r@ == self@,
    {
        self.inner
    }

    /// The bytes of the string: its UTF-8 encoding.
    pub fn into_bytes(self) -> (r: Vec<u8>)
        ensures
            r@ == encode_utf8(self@),
    {
        self.into_string().into_bytes()
    }

    /// The bytes of the string as a non-empty vector.
    pub fn into_non_empty_bytes(self) -> (r: NonEmptyVec<u8>)
        requires
            self.wf(),
        ensures
            vec_bytes(&r) == encode_utf8(self@),
    {
        proof {
            lemma_byte_len_zero(self@);
        }
        match non_empty_vec_from(self.into_bytes()) {
            Ok(bytes) => bytes,
            Err(_) => unreached(),
        }
    }

    /// Appends `character`.
    pub fn push(&mut self, character: char)
        requires
            old(self).wf(),
            fits((byte_len(old(self)@) + char_width(character)) as int),
        ensures
            final(self).wf(),
            final(self)@ == old(self)@.push(character),
            byte_len(final(self)@) == byte_len(old(self)@) + char_width(character),
    {
        proof {
            lemma_byte_len_push(self@, character);
        }
        self.inner.push(character);
    }

    /// Appends `string`.
    pub fn push_str(&mut self, string: &str)
        requires
            old(self).wf(),
            fits((byte_len(old(self)@) + byte_len(string@)) as int),
        ensures
            final(self).wf(),
            final(self)@ == old(self)@ + string@,
            byte_len(final(self)@) == byte_len(old(self)@) + byte_len(string@),
    {
        proof {
            lemma_byte_len_concat(self@, string@);
        }
        self.inner.push_str(string);
    }

    /// Appends `string`.
    pub fn extend_from(&mut self, string: &str)
        requires
            old(self).wf(),
            fits((byte_len(old(self)@) + byte_len(string@)) as int),
        ensures
            final(self).wf(),
            final(self)@ == old(self)@ + string@,
            byte_len(final(self)@) == byte_len(old(self)@) + byte_len(string@),
    {
        self.push_str(string);
    }

    /// Makes room for at least `additional` more bytes. The contents stay.
    pub fn reserve(&mut self, additional: Size)
        requires
            old(self).wf(),
            fits(byte_len(old(self)@) + additional@),
        ensures
            final(self).wf(),
            final(self)@ == old(self)@,
    {
        self.inner.reserve(additional.get());
    }

    /// Makes room for `additional` more bytes, and no more than needed. The
    /// contents stay.
    pub fn reserve_exact(&mut self, additional: Size)
        requires
            old(self).wf(),
            fits(byte_len(old(self)@) + additional@),
        ensures
            final(self).wf(),
            final(self)@ == old(self)@,
    {
        self.inner.reserve_exact(additional.get());
    }

    /// Tries to make room for at least `additional` more bytes. That fails if
    /// the string would then be longer than anything that can be allocated;
    /// else the allocator decides. The contents stay, whether it succeeds or
    /// not.
    pub fn try_reserve(&mut self, additional: Size) -> (r: Result<(), TryReserveError>)
        requires
            old(self).wf(),
        ensures
            final(self).wf(),
            final(self)@ == old(self)@,
            !fits(byte_len(old(self)@) + additional@) ==> r is Err,
    {
        self.inner.try_reserve(additional.get())
    }

    /// Tries to make room for `additional` more bytes, and no more than
    /// needed. That fails if the string would then be longer than anything
    /// that can be allocated; else the allocator decides. The contents stay,
    /// whether it succeeds or not.
    pub fn try_reserve_exact(&mut self, additional: Size) -> (r: Result<(), TryReserveError>)
        requires
            old(self).wf(),
        ensures
            final(self).wf(),
            final(self)@ == old(self)@,
            !fits(byte_len(old(self)@) + additional@) ==> r is Err,
    {
        self.inner.try_reserve_exact(additional.get())
    }

    /// Gives back the room that is not used. The contents stay.
    pub fn shrink_to_fit(&mut self)
        requires
            old(self).wf(),
        ensures
            final(self).wf(),
            final(self)@ == old(self)@,
    {
        self.inner.shrink_to_fit();
    }

    /// Gives back the room that is not used, down to `capacity` bytes. The
    /// contents stay.
    pub fn shrink_to(&mut self, capacity: Size)
        requires
            old(self).wf(),
        ensures
            final(self).wf(),
            final(self)@ == old(self)@,
    {
        self.inner.shrink_to(capacity.get());
    }

    /// Cuts the string down to `new` bytes; does nothing if it is not longer
    /// than that. Since `new` is not zero, something is left.
    pub fn truncate(&mut self, new: Size)
        requires
            old(self).wf(),
            new.wf(),
            new@ < byte_len(old(self)@) ==> is_boundary(old(self)@, new@ as int),
        ensures
            final(self).wf(),
            new@ < byte_len(old(self)@) ==> final(self)@ == prefix(old(self)@, new@ as int),
            new@ < byte_len(old(self)@) ==> byte_len(final(self)@) == new@,
            new@ >= byte_len(old(self)@) ==> final(self)@ == old(self)@,
    {
        proof {
            if new@ < byte_len(self@) {
                lemma_split(self@, new@ as int);
            }
        }
        self.inner.truncate(new.get());
    }

    /// Whether the string is down to its last character: taking one away
    /// would leave it empty.
    pub fn next_empty(&self) -> (r: bool)
        requires
            self.wf(),
        ensures
            r == (self@.len() == 1),
    {
        let first: char = self.inner.as_str().get_char(0);
        proof {
            lemma_single_char(self@);
            lemma_first_width(self@);
        }
        self.len().get() - first.len_utf8() == 0
    }

    /// Whether a character can be taken away without leaving the string
    /// empty.
    pub fn next_non_empty(&self) -> (r: bool)
        requires
            self.wf(),
        ensures
            r == (self@.len() > 1),
    {
        !self.next_empty()
    }

    /// Takes the last character away and returns it, unless it is the only
    /// one: then nothing is removed.
    pub fn pop(&mut self) -> (r: Option<char>)
        requires
            old(self).wf(),
        ensures
            final(self).wf(),
            old(self)@.len() == 1 ==> r is None && final(self)@ == old(self)@,
            old(self)@.len() > 1 ==> r == Some(old(self)@.last()) && final(self)@ == old(
                self,
            )@.drop_last(),
            old(self)@.len() > 1 ==> byte_len(final(self)@) == byte_len(old(self)@) - char_width(
                old(self)@.last(),
            ),
    {
        proof {
            lemma_byte_len_drop_last(self@);
        }
        if self.next_non_empty() {
            self.inner.pop()
        } else {
            None
        }
    }

    /// Puts `character` at the byte offset `index`, which is a boundary.
    pub fn insert(&mut self, index: usize, character: char)
        requires
            old(self).wf(),
            is_boundary(old(self)@, index as int),
            fits((byte_len(old(self)@) + char_width(character)) as int),
        ensures
            final(self).wf(),
            final(self)@ == prefix(old(self)@, index as int).push(character) + suffix(
                old(self)@,
                index as int,
            ),
            byte_len(final(self)@) == byte_len(old(self)@) + char_width(character),
    {
        proof {
            let before = prefix(self@, index as int);
            let after = suffix(self@, index as int);
            lemma_split(self@, index as int);
            lemma_byte_len_push(before, character);
            lemma_byte_len_concat(before.push(character), after);
        }
        self.inner.insert(index, character);
    }

    /// Puts `string` at the byte offset `index`, which is a boundary.
    pub fn insert_str(&mut self, index: usize, string: &str)
        requires
            old(self).wf(),
            is_boundary(old(self)@, index as int),
            fits((byte_len(old(self)@) + byte_len(string@)) as int),
        ensures
            final(self).wf(),
            final(self)@ == prefix(old(self)@, index as int) + string@ + suffix(
                old(self)@,
                index as int,
            ),
            byte_len(final(self)@) == byte_len(old(self)@) + byte_len(string@),
    {
        proof {
            let before = prefix(self@, index as int);
            let after = suffix(self@, index as int);
            lemma_split(self@, index as int);
            lemma_byte_len_concat(before, string@);
            lemma_byte_len_concat(before + string@, after);
        }
        self.inner.insert_str(index, string);
    }

    /// Puts `string` at the byte offset `index`, which is a boundary.
    pub fn insert_from(&mut self, index: usize, string: &str)
        requires
            old(self).wf(),
            is_boundary(old(self)@, index as int),
            fits((byte_len(old(self)@) + byte_len(string@)) as int),
        ensures
            final(self).wf(),
            final(self)@ == prefix(old(self)@, index as int) + string@ + suffix(
                old(self)@,
                index as int,
            ),
            byte_len(final(self)@) == byte_len(old(self)@) + byte_len(string@),
    {
        self.insert_str(index, string);
    }

    /// Takes away the character that starts at the byte offset `index` and
    /// returns it, unless it is the only one: then nothing is removed,
    /// whatever `index` is.
    pub fn remove(&mut self, index: usize) -> (r: Option<char>)
        requires
            old(self).wf(),
            old(self)@.len() > 1 ==> is_boundary(old(self)@, index as int) && index < byte_len(
                old(self)@,
            ),
        ensures
            final(self).wf(),
            old(self)@.len() == 1 ==> r is None && final(self)@ == old(self)@,
            old(self)@.len() > 1 ==> {
                &&& r == Some(suffix(old(self)@, index as int).first())
                &&& final(self)@ == prefix(old(self)@, index as int) + suffix(
                    old(self)@,
                    index as int,
                ).drop_first()
                &&& byte_len(final(self)@) == byte_len(old(self)@) - char_width(r->Some_0)
            },
    {
        if self.next_non_empty() {
            proof {
                let before = prefix(self@, index as int);
                let after = suffix(self@, index as int);
                lemma_split(self@, index as int);
                lemma_byte_len_drop_first(after);
                lemma_byte_len_concat(before, after.drop_first());
            }
            Some(self.inner.remove(index))
        } else {
            None
        }
    }

    /// Splits the string at the byte offset `at`, which is a boundary: what
    /// lies before it stays, the rest is returned. Since `at` is not zero,
    /// something stays.
    pub fn split_off(&mut self, at: Size) -> (r: String)
        requires
            old(self).wf(),
            at.wf(),
            is_boundary(old(self)@, at@ as int),
        ensures
            final(self).wf(),
            final(self)@ == prefix(old(self)@, at@ as int),
            r@ == suffix(old(self)@, at@ as int),
            final(self)@ + r@ == old(self)@,
            byte_len(final(self)@) == at@,
            byte_len(r@) == byte_len(old(self)@) - at@,
    {
        proof {
            lemma_split(self@, at@ as int);
        }
        self.inner.split_off(at.get())
    }

    /// Appends a copy of what lies between the byte offsets `start` and
    /// `end`, which are boundaries.
    pub fn extend_from_within(&mut self, start: usize, end: usize)
        requires
            old(self).wf(),
            start <= end,
            is_boundary(old(self)@, start as int),
            is_boundary(old(self)@, end as int),
            fits(byte_len(old(self)@) + end - start),
        ensures
            final(self).wf(),
            final(self)@ == old(self)@ + between(old(self)@, start as int, end as int),
    {
        string_extend_from_within(&mut self.inner, start, end);
    }

    /// Appends each of `strings` in turn.
    pub fn extend(&mut self, strings: &[&str])
        requires
            old(self).wf(),
            fits((byte_len(old(self)@) + byte_len(joined(strings@))) as int),
        ensures
            final(self).wf(),
            final(self)@ == old(self)@ + joined(strings@),
            byte_len(final(self)@) == byte_len(old(self)@) + byte_len(joined(strings@)),
    {
        proof {
            lemma_byte_len_concat(self@, joined(strings@));
        }
        let mut index: usize = 0;
        assert(self@ =~= old(self)@ + joined(strings@.take(0))) by {
            assert(strings@.take(0).map_values(|string: &str| string@) =~= Seq::<
                Seq<char>,
            >::empty());
        }
        while index < strings.len()
            invariant
                index <= strings.len(),
                old(self).wf(),
                fits((byte_len(old(self)@) + byte_len(joined(strings@))) as int),
                self@ == old(self)@ + joined(strings@.take(index as int)),
            decreases strings.len() - index,
        {
            proof {
                let done = strings@.take(index as int);
                assert(strings@.take(index + 1) =~= done.push(strings@[index as int]));
                lemma_joined_push(done, strings@[index as int]);
                lemma_joined_take(strings@, index + 1);
                lemma_byte_len_concat(old(self)@, joined(done));
                lemma_byte_len_concat(joined(done), strings@[index as int]@);
            }
            self.push_str(strings[index]);
            index += 1;
        }
        assert(strings@.take(index as int) =~= strings@);
    }

    /// Appends each of `chars` in turn.
    pub fn extend_chars(&mut self, chars: &[char])
        requires
            old(self).wf(),
            fits((byte_len(old(self)@) + byte_len(chars@)) as int),
        ensures
            final(self).wf(),
            final(self)@ == old(self)@ + chars@,
            byte_len(final(self)@) == byte_len(old(self)@) + byte_len(chars@),
    {
        proof {
            lemma_byte_len_concat(self@, chars@);
        }
        let mut index: usize = 0;
        assert(self@ =~= old(self)@ + chars@.take(0));
        while index < chars.len()
            invariant
                index <= chars.len(),
                old(self).wf(),
                fits((byte_len(old(self)@) + byte_len(chars@)) as int),
                self@ == old(self)@ + chars@.take(index as int),
            decreases chars.len() - index,
        {
            proof {
                lemma_byte_len_take(chars@, index as int);
                lemma_byte_len_take(chars@, index + 1);
                lemma_byte_len_concat(old(self)@, chars@.take(index as int));
                assert(chars@.take(index + 1) =~= chars@.take(index as int).push(
                    chars@[index as int],
                ));
            }
            self.push(chars[index]);
            index += 1;
        }
        assert(chars@.take(index as int) =~= chars@);
    }

    /// The string that starts with `first` and goes on with each of `rest` in
    /// turn.
    pub fn from_parts(first: NonEmptyString, rest: &[&str]) -> (r: Self)
        requires
            first.wf(),
            fits((byte_len(first@) + byte_len(joined(rest@))) as int),
        ensures
            r.wf(),
            r@ == first@ + joined(rest@),
    {
        let mut output = first;
        output.extend(rest);
        output
    }

    /// The string that starts with `first` and goes on with each of `rest` in
    /// turn.
    pub fn from_chars(first: char, rest: &[char]) -> (r: Self)
        requires
            fits((char_width(first) + byte_len(rest@)) as int),
        ensures
            r.wf(),
            r@ == seq![first] + rest@,
    {
        let mut output = Self::single(first);
        output.extend_chars(rest);
        output
    }

    /// Turns each ASCII small letter into its capital, where it stands.
    pub fn make_ascii_uppercase(&mut self)
        requires
            old(self).wf(),
        ensures
            final(self).wf(),
            final(self)@ == old(self)@.map_values(|c: char| ascii_upper(c)),
    {
        self.inner.as_mut_str().make_ascii_uppercase();
    }

    /// Turns each ASCII capital letter into its small letter, where it
    /// stands.
    pub fn make_ascii_lowercase(&mut self)
        requires
            old(self).wf(),
        ensures
            final(self).wf(),
            final(self)@ == old(self)@.map_values(|c: char| ascii_lower(c)),
    {
        self.inner.as_mut_str().make_ascii_lowercase();
    }

    /// Gives the string up for good, and hands out its contents for as long
    /// as the caller likes.
    pub fn leak<'a>(self) -> (r: &'a mut str)
        ensures
            r@ == self@,
    {
        self.into_string().leak()
    }

    /// Gives the string up for good, and hands out its contents as a
    /// non-empty slice for as long as the caller likes.
    pub fn leak_non_empty<'a>(self) -> (r: NonEmptyStr<'a>)
        requires
            self.wf(),
        ensures
            r.wf(),
            r@ == self@,
    {
        let leaked: &'a str = self.leak();
        NonEmptyStr::from_str_unchecked(leaked)
    }

    /// A string of the one character `character`.
    pub fn single(character: char) -> (r: Self)
        ensures
            r.wf(),
            r@ == seq![character],
            byte_len(r@) == char_width(character),
    {
        proof {
            lemma_encode_single(character);
        }
        let mut string = String::new();
        string.push(character);
        assert(string@ =~= seq![character]);
        Self::new_unchecked(string)
    }

    /// A string of the one character `character`, with room for `capacity`
    /// bytes.
    pub fn with_capacity_and_char(capacity: Size, character: char) -> (r: Self)
        requires
            fits(capacity@ as int),
        ensures
            r.wf(),
            r@ == seq![character],
            byte_len(r@) == char_width(character),
    {
        proof {
            lemma_encode_single(character);
        }
        let mut string = String::with_capacity(capacity.get());
        string.push(character);
        assert(string@ =~= seq![character]);
        Self::new_unchecked(string)
    }
}

impl<'s> NonEmptyStr<'s> {
    /// Copies the string into a buffer of its own.
    pub fn to_non_empty_string(&self) -> (r: NonEmptyString)
        requires
            self.wf(),
        ensures
            r.wf(),
            r@ == self@,
    {
        NonEmptyString::from_non_empty_str(*self)
    }

    /// Copies the bytes of the string into a non-empty vector.
    pub fn to_non_empty_bytes(&self) -> (r: NonEmptyVec<u8>)
        requires
            self.wf(),
        ensures
            vec_bytes(&r) == encode_utf8(self@),
    {
        self.to_non_empty_string().into_non_empty_bytes()
    }

    /// The lowercase equivalent of the string.
    pub fn to_lowercase(&self) -> (r: String)
        ensures
            r@ == lowercase(self@),
    {
        self.as_str().to_lowercase()
    }

    /// The uppercase equivalent of the string.
    pub fn to_uppercase(&self) -> (r: String)
        ensures
            r@ == uppercase(self@),
    {
        self.as_str().to_uppercase()
    }

    /// The string written `count` times in a row. Since `count` is not zero,
    /// the result is not empty.
    pub fn repeat(&self, count: Size) -> (r: NonEmptyString)
        requires
            self.wf(),
            count.wf(),
            fits(count@ * byte_len(self@)),
        ensures
            r.wf(),
            r@ == repeated(self@, count@ as nat),
            r@.len() == count@ * self@.len(),
            byte_len(r@) == count@ * byte_len(self@),
    {
        proof {
            lemma_repeated_len(self@, count@ as nat);
            assert(count@ * self@.len() > 0) by (nonlinear_arith)
                requires
                    count@ > 0,
                    self@.len() > 0,
            ;
        }
        NonEmptyString::new_unchecked(self.as_str().repeat(count.get()))
    }

    /// The lowercase equivalent of the string, which is known not to be
    /// empty.
    pub fn to_non_empty_lowercase(&self) -> (r: NonEmptyString)
        requires
            lowercase(self@).len() > 0,
        ensures
            r.wf(),
            r@ == lowercase(self@),
    {
        NonEmptyString::new_unchecked(self.to_lowercase())
    }

    /// The uppercase equivalent of the string, which is known not to be
    /// empty.
    pub fn to_non_empty_uppercase(&self) -> (r: NonEmptyString)
        requires
            uppercase(self@).len() > 0,
        ensures
            r.wf(),
            r@ == uppercase(self@),
    {
        NonEmptyString::new_unchecked(self.to_uppercase())
    }

    /// The lowercase equivalent of the string, unless that is empty.
    pub fn to_non_empty_lowercase_checked(&self) -> (r: Option<NonEmptyString>)
        ensures
            r is Some <==> lowercase(self@).len() > 0,
            r is Some ==> r->Some_0.wf() && r->Some_0@ == lowercase(self@),
    {
        if self.to_lowercase().as_str().is_empty() {
            return None;
        }
        Some(self.to_non_empty_lowercase())
    }

    /// The uppercase equivalent of the string, unless that is empty.
    pub fn to_non_empty_uppercase_checked(&self) -> (r: Option<NonEmptyString>)
        ensures
            r is Some <==> uppercase(self@).len() > 0,
            r is Some ==> r->Some_0.wf() && r->Some_0@ == uppercase(self@),
    {
        if self.to_uppercase().as_str().is_empty() {
            return None;
        }
        Some(self.to_non_empty_uppercase())
    }
}

/// The first character of a non-empty string is no wider than the string.
proof fn lemma_first_width(chars: Seq<char>)
    requires
        chars.len() > 0,
    ensures
        char_width(chars[0]) <= byte_len(chars),
{
}

} // verus!
