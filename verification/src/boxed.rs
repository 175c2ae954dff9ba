//! Non-empty strings in a box: one allocation of fixed length.

use non_empty_slice::NonEmptySlice;
use vstd::pervasive::unreached;
use vstd::prelude::*;
use vstd::utf8::encode_utf8;
use crate::bytes::{non_empty_boxed_slice_from, slice_bytes};
use crate::str::NonEmptyStr;
use crate::string::{EmptyString, NonEmptyString};
use crate::text::lemma_byte_len_zero;

verus! {

/// The message of the error that reports an empty boxed string.
pub const EMPTY_BOXED_STR: &'static str = "the boxed string is empty";

/// The error of a boxed string that is empty; it holds that boxed string.
#[derive(Debug)]
pub struct EmptyBoxedStr {
    boxed: Box<str>,
}

impl EmptyBoxedStr {
    /// The characters of the boxed string that was rejected: none.
    pub closed spec fn view(&self) -> Seq<char> {
        self.boxed@
    }

    /// The invariant of the type: the boxed string that is held is empty.
    pub open spec fn wf(&self) -> bool {
        self@.len() == 0
    }

    pub(crate) fn new(boxed: Box<str>) -> (r: Self)
        requires
            boxed@.len() == 0,
        ensures
            r.wf(),
            r@ == boxed@,
    {
        Self { boxed }
    }

    /// The boxed string that was rejected.
    pub fn get(self) -> (r: Box<str>)
        ensures
            r@ == self@,
    {
        self.boxed
    }

    /// The boxed string that was rejected, for the caller to use its box
    /// again.
    pub fn recover(self) -> (r: Box<str>)
        ensures
            r@ == self@,
    {
        self.get()
    }

    /// The same error for the string as a `String`.
    pub fn from_empty_string(empty: EmptyString) -> (r: Self)
        requires
            empty.wf(),
        ensures
            r.wf(),
            r@ == empty@,
    {
        Self::new(empty.get().into_boxed_str())
    }

    /// The same error for the string as a `String`.
    pub fn into_empty_string(self) -> (r: EmptyString)
        requires
            self.wf(),
        ensures
            r.wf(),
            r@ == self@,
    {
        EmptyString::from_empty_boxed_str(self)
    }

    /// The message of the error.
    pub fn to_string(&self) -> (r: String)
        ensures
            r@ == EMPTY_BOXED_STR@,
    {
        EMPTY_BOXED_STR.to_owned()
    }
}

impl EmptyString {
    /// The same error for the string in a box.
    pub fn from_empty_boxed_str(empty: EmptyBoxedStr) -> (r: Self)
        requires
            empty.wf(),
        ensures
            r.wf(),
            r@ == empty@,
    {
        Self::new(empty.get().into_string())
    }

    /// The same error for the string in a box.
    pub fn into_empty_boxed_str(self) -> (r: EmptyBoxedStr)
        requires
            self.wf(),
        ensures
            r.wf(),
            r@ == self@,
    {
        EmptyBoxedStr::from_empty_string(self)
    }
}

/// A string that is not empty and lives in a box. It cannot grow.
#[derive(Debug, PartialEq, Eq, PartialOrd, Ord, Hash)]
pub struct NonEmptyBoxedStr {
    inner: Box<str>,
}

impl Clone for NonEmptyBoxedStr {
    fn clone(&self) -> (r: Self)
        ensures
            r@ == self@,
    {
        Self { inner: self.as_str().to_owned().into_boxed_str() }
    }
}

impl<'s> NonEmptyStr<'s> {
    /// Wraps `boxed`, unless it is empty; the error gives the box back.
    pub fn from_boxed_str(boxed: Box<str>) -> (r: Result<NonEmptyBoxedStr, EmptyBoxedStr>)
        ensures
            r is Ok <==> boxed@.len() > 0,
            r is Ok ==> r->Ok_0.wf() && r->Ok_0@ == boxed@,
            r is Err ==> r->Err_0.wf() && r->Err_0@ == boxed@,
    {
        if boxed.is_empty() {
            return Err(EmptyBoxedStr::new(boxed));
        }
        Ok(Self::from_boxed_str_unchecked(boxed))
    }

    /// Wraps `boxed`, unless it is empty; the error, and the box with it, is
    /// dropped.
    pub fn from_boxed_str_ok(boxed: Box<str>) -> (r: Option<NonEmptyBoxedStr>)
        ensures
            r is Some <==> boxed@.len() > 0,
            r is Some ==> r->Some_0.wf() && r->Some_0@ == boxed@,
    {
        match Self::from_boxed_str(boxed) {
            Ok(non_empty) => Some(non_empty),
            Err(_) => None,
        }
    }

    /// Wraps `boxed`, which the caller knows not to be empty.
    pub fn from_boxed_str_unchecked(boxed: Box<str>) -> (r: NonEmptyBoxedStr)
        requires
            boxed@.len() > 0,
        ensures
            r.wf(),
            r@ == boxed@,
    {
        NonEmptyBoxedStr { inner: boxed }
    }

    /// Puts `non_empty` in a box.
    pub fn from_non_empty_string(non_empty: NonEmptyString) -> (r: NonEmptyBoxedStr)
        requires
            non_empty.wf(),
        ensures
            r.wf(),
            r@ == non_empty@,
    {
        Self::from_boxed_str_unchecked(non_empty.into_string().into_boxed_str())
    }
}

impl NonEmptyBoxedStr {
    /// The characters of the string.
    pub closed spec fn view(&self) -> Seq<char> {
        self.inner@
    }

    /// The invariant of the type: there is at least one character.
    pub open spec fn wf(&self) -> bool {
        self@.len() > 0
    }

    /// The whole string as a slice.
    pub fn as_str(&self) -> (r: &str)
        ensures
            r@ == self@,
    {
        &*self.inner
    }

    /// The whole string as a non-empty slice. Nothing is copied.
    pub fn as_non_empty_str(&self) -> (r: NonEmptyStr<'_>)
        requires
            self.wf(),
        ensures
            r.wf(),
            r@ == self@,
    {
        NonEmptyStr::from_str_unchecked(self.as_str())
    }

    /// The box that is wrapped.
    pub fn into_boxed_str(self) -> (r: Box<str>)
        ensures
            r@ == self@,
    {
        self.inner
    }

    /// The string as one that can grow. The allocation is kept.
    pub fn into_non_empty_string(self) -> (r: NonEmptyString)
        requires
            self.wf(),
        ensures
            r.wf(),
            r@ == self@,
    {
        NonEmptyString::from_non_empty_boxed_str(self)
    }

    /// The bytes of the string in a box: its UTF-8 encoding.
    pub fn into_boxed_bytes(self) -> (r: Box<[u8]>)
        ensures
            r@ == encode_utf8(self@),
    {
        self.into_boxed_str().into_boxed_bytes()
    }

    /// The bytes of the string as a non-empty slice in a box.
    pub fn into_non_empty_boxed_bytes(self) -> (r: Box<NonEmptySlice<u8>>)
        requires
            self.wf(),
        ensures
            slice_bytes(&*r) == encode_utf8(self@),
    {
        proof {
            lemma_byte_len_zero(self@);
        }
        match non_empty_boxed_slice_from(self.into_boxed_bytes()) {
            Ok(bytes) => bytes,
            Err(_) => unreached(),
        }
    }
}

impl NonEmptyString {
    /// The boxed string as one that can grow. The allocation is kept.
    pub fn from_non_empty_boxed_str(non_empty: NonEmptyBoxedStr) -> (r: Self)
        requires
            non_empty.wf(),
        ensures
            r.wf(),
            r@ == non_empty@,
    {
        Self::new_unchecked(non_empty.into_boxed_str().into_string())
    }

    /// The string in a box. The buffer is cut down to the length.
    pub fn into_non_empty_boxed_str(self) -> (r: NonEmptyBoxedStr)
        requires
            self.wf(),
        ensures
            r.wf(),
            r@ == self@,
    {
        NonEmptyStr::from_non_empty_string(self)
    }

    /// The string in a box.
    pub fn into_boxed_str(self) -> (r: Box<str>)
        ensures
            r@ == self@,
    {
        self.into_string().into_boxed_str()
    }

    /// The bytes of the string in a box: its UTF-8 encoding.
    pub fn into_boxed_bytes(self) -> (r: Box<[u8]>)
        ensures
            r@ == encode_utf8(self@),
    {
        self.into_boxed_str().into_boxed_bytes()
    }

    /// The bytes of the string as a non-empty slice in a box.
    pub fn into_non_empty_boxed_bytes(self) -> (r: Box<NonEmptySlice<u8>>)
        requires
            self.wf(),
        ensures
            slice_bytes(&*r) == encode_utf8(self@),
    {
        self.into_non_empty_boxed_str().into_non_empty_boxed_bytes()
    }
}

} // verus!
