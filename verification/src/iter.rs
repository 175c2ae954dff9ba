//! What can be iterated over in a non-empty string.
//!
//! Each type stands for one way of walking through a string and hands out
//! its items as a vector. Where the walk through a non-empty string yields at
//! least one item, whatever the string, the contract says so; where it may
//! yield none, as with the pieces between whitespace, the contract says what
//! holds of each item instead.

use vstd::prelude::*;
use vstd::string::StrSliceExecFns;
use vstd::utf8::encode_utf8;
use crate::std_specs::{
    escaped_debug, is_whitespace, str_encode_utf16, str_escape_debug, str_escape_default,
    str_escape_unicode, str_lines, str_split_ascii_whitespace, str_split_whitespace,
};
use crate::str::NonEmptyStr;
use crate::text::{
    ascii_whitespace_pieces, byte_len, escaped_default, escaped_unicode, indexed,
    lemma_byte_len_take, lemma_byte_len_zero, lemma_escaped_non_empty, lemma_lines_non_empty,
    lemma_pieces_non_empty, lemma_utf16_non_empty, lines_of, pieces, utf16_of,
};

verus! {

/// The pieces of `chars` between whitespace.
pub open spec fn whitespace_pieces(chars: Seq<char>) -> Seq<Seq<char>> {
    pieces(chars, |c: char| is_whitespace(c))
}

/// Each of `strings`, none of which is empty, as a non-empty string.
fn wrap_each<'s>(strings: Vec<&'s str>) -> (r: Vec<NonEmptyStr<'s>>)
    requires
        forall|i: int| 0 <= i < strings@.len() ==> (#[trigger] strings@[i])@.len() > 0,
    ensures
        r@.len() == strings@.len(),
        forall|i: int| 0 <= i < r@.len() ==> (#[trigger] r@[i]).wf() && r@[i]@ == strings@[i]@,
{
    let mut wrapped: Vec<NonEmptyStr<'s>> = Vec::new();
    let mut index: usize = 0;
    while index < strings.len()
        invariant
            index <= strings.len(),
            forall|i: int| 0 <= i < strings@.len() ==> (#[trigger] strings@[i])@.len() > 0,
            wrapped@.len() == index,
            forall|i: int|
                0 <= i < index ==> (#[trigger] wrapped@[i]).wf() && wrapped@[i]@ == strings@[i]@,
        decreases strings.len() - index,
    {
        wrapped.push(NonEmptyStr::from_str_unchecked(strings[index]));
        index += 1;
    }
    wrapped
}

/// The characters of `string`, in their order.
fn chars_of(string: &str) -> (r: Vec<char>)
    ensures
        r@ == string@,
{
    let mut chars: Vec<char> = Vec::new();
    for character in iter: string.chars()
        invariant
            iter.seq() == string@,
            chars@ == iter.seq().take(iter.index()),
    {
        chars.push(character);
        assert(iter.seq().take(iter.index() + 1) =~= iter.seq().take(iter.index()).push(
            character,
        ));
    }
    assert(chars@ =~= string@);
    chars
}

/// The bytes of a non-empty string. There is at least one.
#[derive(Debug)]
pub struct Bytes<'s> {
    string: NonEmptyStr<'s>,
}

impl<'s> Bytes<'s> {
    /// The characters of the string that is walked through.
    pub closed spec fn source(&self) -> Seq<char> {
        self.string@
    }

    /// The invariant of the type: the string that is walked through is not
    /// empty.
    pub open spec fn wf(&self) -> bool {
        self.source().len() > 0
    }

    /// The bytes of `string`.
    pub fn new(string: NonEmptyStr<'s>) -> (r: Self)
        ensures
            r.source() == string@,
    {
        Self { string }
    }

    /// The bytes, in their order.
    pub fn to_vec(&self) -> (r: Vec<u8>)
        requires
            self.wf(),
        ensures
            r@ == encode_utf8(self.source()),
            r@.len() > 0,
    {
        proof {
            lemma_byte_len_zero(self.source());
        }
        self.string.as_str().as_bytes_vec()
    }
}

/// The characters of a non-empty string. There is at least one.
#[derive(Debug)]
pub struct Chars<'s> {
    string: NonEmptyStr<'s>,
}

impl<'s> Chars<'s> {
    /// The characters of the string that is walked through.
    pub closed spec fn source(&self) -> Seq<char> {
        self.string@
    }

    /// The invariant of the type: the string that is walked through is not
    /// empty.
    pub open spec fn wf(&self) -> bool {
        self.source().len() > 0
    }

    /// The characters of `string`.
    pub fn new(string: NonEmptyStr<'s>) -> (r: Self)
        ensures
            r.source() == string@,
    {
        Self { string }
    }

    /// The characters, in their order.
    pub fn to_vec(&self) -> (r: Vec<char>)
        requires
            self.wf(),
        ensures
            r@ == self.source(),
            r@.len() > 0,
    {
        chars_of(self.string.as_str())
    }
}

/// The characters of a non-empty string, each with the byte offset at which
/// it starts. There is at least one.
#[derive(Debug)]
pub struct CharIndices<'s> {
    string: NonEmptyStr<'s>,
}

impl<'s> CharIndices<'s> {
    /// The characters of the string that is walked through.
    pub closed spec fn source(&self) -> Seq<char> {
        self.string@
    }

    /// The invariant of the type: the string that is walked through is not
    /// empty.
    pub open spec fn wf(&self) -> bool {
        self.source().len() > 0
    }

    /// The characters of `string` and their offsets.
    pub fn new(string: NonEmptyStr<'s>) -> (r: Self)
        ensures
            r.source() == string@,
    {
        Self { string }
    }

    /// The offsets and characters, in their order.
    pub fn to_vec(&self) -> (r: Vec<(usize, char)>)
        requires
            self.wf(),
        ensures
            r@ == indexed(self.source()),
            r@.len() > 0,
    {
        let chars = chars_of(self.string.as_str());
        let total: usize = self.string.as_bytes().len();
        let mut pairs: Vec<(usize, char)> = Vec::new();
        let mut offset: usize = 0;
        let mut index: usize = 0;
        while index < chars.len()
            invariant
                index <= chars.len(),
                chars@ == self.source(),
                total == byte_len(chars@),
                offset == byte_len(chars@.take(index as int)),
                pairs@.len() == index,
                forall|i: int| 0 <= i < index ==> pairs@[i] == indexed(chars@)[i],
            decreases chars.len() - index,
        {
            let character: char = chars[index];
            proof {
                lemma_byte_len_take(chars@, index as int);
                lemma_byte_len_take(chars@, index + 1);
            }
            pairs.push((offset, character));
            offset += character.len_utf8();
            index += 1;
        }
        assert(pairs@ =~= indexed(chars@));
        pairs
    }
}

/// The non-empty pieces of a non-empty string that lie between whitespace.
/// There may be none: a string of whitespace alone has no such piece.
#[derive(Debug)]
pub struct SplitWhitespace<'s> {
    string: NonEmptyStr<'s>,
}

impl<'s> SplitWhitespace<'s> {
    /// The characters of the string that is walked through.
    pub closed spec fn source(&self) -> Seq<char> {
        self.string@
    }

    /// The invariant of the type: the string that is walked through is not
    /// empty.
    pub open spec fn wf(&self) -> bool {
        self.source().len() > 0
    }

    /// The pieces of `string` between whitespace.
    pub fn new(string: NonEmptyStr<'s>) -> (r: Self)
        ensures
            r.source() == string@,
    {
        Self { string }
    }

    /// The pieces, in their order. Each is non-empty.
    pub fn to_vec(&self) -> (r: Vec<NonEmptyStr<'s>>)
        ensures
            r@.len() == whitespace_pieces(self.source()).len(),
            forall|i: int|
                0 <= i < r@.len() ==> (#[trigger] r@[i]).wf() && r@[i]@ == whitespace_pieces(
                    self.source(),
                )[i],
    {
        proof {
            lemma_pieces_non_empty(self.source(), |c: char| is_whitespace(c));
        }
        wrap_each(str_split_whitespace(self.string.as_str()))
    }
}

/// The non-empty pieces of a non-empty string that lie between ASCII
/// whitespace. There may be none: a string of ASCII whitespace alone has no
/// such piece.
#[derive(Debug)]
pub struct SplitAsciiWhitespace<'s> {
    string: NonEmptyStr<'s>,
}

impl<'s> SplitAsciiWhitespace<'s> {
    /// The characters of the string that is walked through.
    pub closed spec fn source(&self) -> Seq<char> {
        self.string@
    }

    /// The invariant of the type: the string that is walked through is not
    /// empty.
    pub open spec fn wf(&self) -> bool {
        self.source().len() > 0
    }

    /// The pieces of `string` between ASCII whitespace.
    pub fn new(string: NonEmptyStr<'s>) -> (r: Self)
        ensures
            r.source() == string@,
    {
        Self { string }
    }

    /// The pieces, in their order. Each is non-empty.
    pub fn to_vec(&self) -> (r: Vec<NonEmptyStr<'s>>)
        ensures
            r@.len() == ascii_whitespace_pieces(self.source()).len(),
            forall|i: int|
                0 <= i < r@.len() ==> (#[trigger] r@[i]).wf() && r@[i]@
                    == ascii_whitespace_pieces(self.source())[i],
    {
        proof {
            lemma_pieces_non_empty(self.source(), |c: char| crate::text::is_ascii_space(c));
        }
        wrap_each(str_split_ascii_whitespace(self.string.as_str()))
    }
}

/// The UTF-16 encoding of a non-empty string. There is at least one unit.
#[derive(Debug)]
pub struct EncodeUtf16<'s> {
    string: NonEmptyStr<'s>,
}

impl<'s> EncodeUtf16<'s> {
    /// The characters of the string that is walked through.
    pub closed spec fn source(&self) -> Seq<char> {
        self.string@
    }

    /// The invariant of the type: the string that is walked through is not
    /// empty.
    pub open spec fn wf(&self) -> bool {
        self.source().len() > 0
    }

    /// The UTF-16 encoding of `string`.
    pub fn new(string: NonEmptyStr<'s>) -> (r: Self)
        ensures
            r.source() == string@,
    {
        Self { string }
    }

    /// The units, in their order.
    pub fn to_vec(&self) -> (r: Vec<u16>)
        requires
            self.wf(),
        ensures
            r@ == utf16_of(self.source()),
            r@.len() > 0,
    {
        proof {
            lemma_utf16_non_empty(self.source());
        }
        str_encode_utf16(self.string.as_str())
    }
}

/// The characters of a non-empty string, escaped as for debugging output.
#[derive(Debug)]
pub struct EscapeDebug<'s> {
    string: NonEmptyStr<'s>,
}

impl<'s> EscapeDebug<'s> {
    /// The characters of the string that is walked through.
    pub closed spec fn source(&self) -> Seq<char> {
        self.string@
    }

    /// The invariant of the type: the string that is walked through is not
    /// empty.
    pub open spec fn wf(&self) -> bool {
        self.source().len() > 0
    }

    /// The escaped characters of `string`.
    pub fn new(string: NonEmptyStr<'s>) -> (r: Self)
        ensures
            r.source() == string@,
    {
        Self { string }
    }

    /// The escaped characters, in their order.
    pub fn to_vec(&self) -> (r: Vec<char>)
        ensures
            r@ == escaped_debug(self.source()),
    {
        str_escape_debug(self.string.as_str())
    }
}

/// The characters of a non-empty string, escaped so as to be legal in the
/// literals of many languages. There is at least one.
#[derive(Debug)]
pub struct EscapeDefault<'s> {
    string: NonEmptyStr<'s>,
}

impl<'s> EscapeDefault<'s> {
    /// The characters of the string that is walked through.
    pub closed spec fn source(&self) -> Seq<char> {
        self.string@
    }

    /// The invariant of the type: the string that is walked through is not
    /// empty.
    pub open spec fn wf(&self) -> bool {
        self.source().len() > 0
    }

    /// The escaped characters of `string`.
    pub fn new(string: NonEmptyStr<'s>) -> (r: Self)
        ensures
            r.source() == string@,
    {
        Self { string }
    }

    /// The escaped characters, in their order.
    pub fn to_vec(&self) -> (r: Vec<char>)
        requires
            self.wf(),
        ensures
            r@ == escaped_default(self.source()),
            r@.len() > 0,
    {
        proof {
            lemma_escaped_non_empty(self.source());
        }
        str_escape_default(self.string.as_str())
    }
}

/// The characters of a non-empty string, each escaped by its number. There
/// is at least one.
#[derive(Debug)]
pub struct EscapeUnicode<'s> {
    string: NonEmptyStr<'s>,
}

impl<'s> EscapeUnicode<'s> {
    /// The characters of the string that is walked through.
    pub closed spec fn source(&self) -> Seq<char> {
        self.string@
    }

    /// The invariant of the type: the string that is walked through is not
    /// empty.
    pub open spec fn wf(&self) -> bool {
        self.source().len() > 0
    }

    /// The escaped characters of `string`.
    pub fn new(string: NonEmptyStr<'s>) -> (r: Self)
        ensures
            r.source() == string@,
    {
        Self { string }
    }

    /// The escaped characters, in their order.
    pub fn to_vec(&self) -> (r: Vec<char>)
        requires
            self.wf(),
        ensures
            r@ == escaped_unicode(self.source()),
            r@.len() > 0,
    {
        proof {
            lemma_escaped_non_empty(self.source());
        }
        str_escape_unicode(self.string.as_str())
    }
}

/// The lines of a non-empty string. There is at least one.
#[derive(Debug)]
pub struct Lines<'s> {
    string: NonEmptyStr<'s>,
}

impl<'s> Lines<'s> {
    /// The characters of the string that is walked through.
    pub closed spec fn source(&self) -> Seq<char> {
        self.string@
    }

    /// The invariant of the type: the string that is walked through is not
    /// empty.
    pub open spec fn wf(&self) -> bool {
        self.source().len() > 0
    }

    /// The lines of `string`.
    pub fn new(string: NonEmptyStr<'s>) -> (r: Self)
        ensures
            r.source() == string@,
    {
        Self { string }
    }

    /// The lines, in their order, without their line endings.
    pub fn to_vec(&self) -> (r: Vec<&'s str>)
        requires
            self.wf(),
        ensures
            r@.len() == lines_of(self.source()).len(),
            forall|i: int| 0 <= i < r@.len() ==> (#[trigger] r@[i])@ == lines_of(self.source())[i],
            r@.len() > 0,
    {
        proof {
            lemma_lines_non_empty(self.source());
        }
        str_lines(self.string.as_str())
    }
}

} // verus!
