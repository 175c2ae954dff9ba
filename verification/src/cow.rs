//! Non-empty strings that are either borrowed or owned.

use vstd::prelude::*;
use crate::boxed::NonEmptyBoxedStr;
use crate::str::NonEmptyStr;
use crate::string::NonEmptyString;

verus! {

/// A non-empty string that is either borrowed or owned. A borrowed one is
/// copied only when an owned one is asked for.
#[derive(Debug)]
pub enum NonEmptyCowStr<'s> {
    /// The string is borrowed.
    Borrowed(NonEmptyStr<'s>),
    /// The string is owned.
    Owned(NonEmptyString),
}

impl<'s> NonEmptyCowStr<'s> {
    /// The characters of the string.
    pub open spec fn view(&self) -> Seq<char> {
        match self {
            NonEmptyCowStr::Borrowed(string) => string@,
            NonEmptyCowStr::Owned(string) => string@,
        }
    }

    /// The invariant of the type: there is at least one character.
    pub open spec fn wf(&self) -> bool {
        self@.len() > 0
    }
    /// A borrowed string. Nothing is copied.
    pub fn borrowed(string: NonEmptyStr<'s>) -> (r: Self)
        ensures
            r == NonEmptyCowStr::Borrowed(string),
    {
        NonEmptyCowStr::Borrowed(string)
    }

    /// An owned string. Nothing is copied.
    pub fn owned(string: NonEmptyString) -> (r: Self)
        ensures
            r == NonEmptyCowStr::<'s>::Owned(string),
    {
        NonEmptyCowStr::Owned(string)
    }

    /// A string borrowed from an owned one. Nothing is copied.
    pub fn from_non_empty_string(string: &'s NonEmptyString) -> (r: Self)
        requires
            string.wf(),
        ensures
            r is Borrowed,
            r.wf(),
            r@ == string@,
    {
        NonEmptyCowStr::Borrowed(string.as_non_empty_str())
    }

    /// Whether the string is borrowed.
    pub fn is_borrowed(&self) -> (r: bool)
        ensures
            r == (self is Borrowed),
    {
        match self {
            NonEmptyCowStr::Borrowed(_) => true,
            NonEmptyCowStr::Owned(_) => false,
        }
    }

    /// Whether the string is owned.
    pub fn is_owned(&self) -> (r: bool)
        ensures
            r == (self is Owned),
    {
        !self.is_borrowed()
    }

    /// The whole string as a slice.
    pub fn as_str(&self) -> (r: &str)
        ensures
            r@ == self@,
    {
        match self {
            NonEmptyCowStr::Borrowed(string) => string.as_str(),
            NonEmptyCowStr::Owned(string) => string.as_str(),
        }
    }

    /// The whole string as a non-empty slice. Nothing is copied.
    pub fn as_non_empty_str(&self) -> (r: NonEmptyStr<'_>)
        requires
            self.wf(),
        ensures
            r.wf(),
            r@ == self@,
    {
        match self {
            NonEmptyCowStr::Borrowed(string) => *string,
            NonEmptyCowStr::Owned(string) => string.as_non_empty_str(),
        }
    }

    /// The string as an owned one. A borrowed string is copied, and this is
    /// the one place where that happens; an owned one is handed over as it
    /// is.
    pub fn into_owned(self) -> (r: NonEmptyString)
        requires
            self.wf(),
        ensures
            r.wf(),
            r@ == self@,
            self matches NonEmptyCowStr::Owned(string) ==> r == string,
    {
        match self {
            NonEmptyCowStr::Borrowed(string) => string.to_non_empty_string(),
            NonEmptyCowStr::Owned(string) => string,
        }
    }

    /// The string in a box.
    pub fn into_non_empty_boxed_str(self) -> (r: NonEmptyBoxedStr)
        requires
            self.wf(),
        ensures
            r.wf(),
            r@ == self@,
    {
        self.into_owned().into_non_empty_boxed_str()
    }

    /// Makes the string an owned one where it stands. A borrowed string is
    /// copied; an owned one is left as it is.
    pub fn make_owned(&mut self)
        requires
            old(self).wf(),
        ensures
            *final(self) is Owned,
            final(self).wf(),
            final(self)@ == old(self)@,
            *old(self) is Owned ==> *final(self) == *old(self),
    {
        if let NonEmptyCowStr::Borrowed(string) = self {
            *self = NonEmptyCowStr::Owned(string.to_non_empty_string());
        }
    }
}

} // verus!
