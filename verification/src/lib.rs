//! Strings that are never empty.
//!
//! A string that is known not to be empty comes in four forms: a slice
//! borrowed from elsewhere ([`NonEmptyStr`], and [`NonEmptyMutStr`] where it
//! can be changed), a buffer that can grow ([`NonEmptyString`]), a box of
//! fixed length ([`NonEmptyBoxedStr`]), and one that is either borrowed or
//! owned ([`NonEmptyCowStr`]). Each is made by a function that tests for
//! emptiness once; after that the fact is carried by the value, as its `wf`.
//!
//! A string is modelled by the sequence of its characters, its view. Lengths
//! and offsets count the bytes of its UTF-8 encoding; the module [`text`]
//! relates the two.
//!
//! # Conversions
//!
//! From one form to another there is one way, and it either copies the
//! string or it does not:
//!
//! | from \ to | slice | buffer | box | either |
//! |---|---|---|---|---|
//! | slice | | `to_non_empty_string`, copies | by way of the buffer, copies | `NonEmptyCowStr::borrowed`, free |
//! | buffer | `as_non_empty_str`, free | | `into_non_empty_boxed_str`, may move the bytes | `NonEmptyCowStr::owned`, free |
//! | box | `as_non_empty_str`, free | `into_non_empty_string`, free | | by way of the buffer, free |
//! | either | `as_non_empty_str`, free | `into_owned`, copies a borrowed one | `into_non_empty_boxed_str` | |
//!
//! Bytes are read as a string by the functions named `from_utf8` and those
//! like it, which test for emptiness first and for validity second; a string
//! gives its bytes by `as_bytes`, `into_bytes` and those like them, for
//! free.

pub mod boxed;
pub mod bytes;
pub mod cow;
pub mod iter;
pub mod size;
pub mod std_specs;
pub mod str;
pub mod string;
pub mod text;

pub use boxed::{EmptyBoxedStr, NonEmptyBoxedStr};
pub use cow::NonEmptyCowStr;
pub use size::Size;
pub use str::{
    EmptyStr, FromNonEmptyStr, MaybeEmptyUtf8Error, NonEmptyMutStr, NonEmptyStr, NonEmptyUtf8Error,
};
pub use string::{EmptyString, FromMaybeEmptyUtf8Error, FromNonEmptyUtf8Error, NonEmptyString};
