//! Characters, their UTF-8 encoding, and byte offsets into it.
//!
//! A string is modelled as the sequence of its characters. Lengths and
//! offsets, however, count bytes of the UTF-8 encoding, so this module relates
//! the two.

use vstd::prelude::*;
use vstd::utf8::*;

verus! {

/// The number of bytes that the UTF-8 encoding of `c` takes.
pub open spec fn char_width(c: char) -> nat {
    encode_scalar(c as u32).len()
}

/// The number of bytes that the UTF-8 encoding of `chars` takes.
pub open spec fn byte_len(chars: Seq<char>) -> nat {
    encode_utf8(chars).len()
}

/// Whether the byte offset `index` falls between two characters of `chars`,
/// before the first, or behind the last.
pub open spec fn is_boundary(chars: Seq<char>, index: int) -> bool {
    is_char_boundary(encode_utf8(chars), index)
}

/// The characters of `chars` that are encoded before the byte offset `index`.
pub open spec fn prefix(chars: Seq<char>, index: int) -> Seq<char> {
    decode_utf8(encode_utf8(chars).subrange(0, index))
}

/// The characters of `chars` that are encoded from the byte offset `index` on.
pub open spec fn suffix(chars: Seq<char>, index: int) -> Seq<char> {
    decode_utf8(encode_utf8(chars).subrange(index, encode_utf8(chars).len() as int))
}

/// The characters of `chars` that are encoded from the byte offset `start` up
/// to the byte offset `end`.
pub open spec fn between(chars: Seq<char>, start: int, end: int) -> Seq<char> {
    decode_utf8(encode_utf8(chars).subrange(start, end))
}

/// All the characters of `strings`, in their order.
pub open spec fn joined(strings: Seq<&str>) -> Seq<char> {
    strings.map_values(|string: &str| string@).flatten()
}

/// The digit that stands for `value`, which is below sixteen, in
/// hexadecimal notation with small letters.
pub open spec fn hex_digit(value: u32) -> char {
    if value < 10 {
        (value + 0x30) as char
    } else {
        (value - 10 + 0x61) as char
    }
}

/// `value` in hexadecimal notation, without leading zeros.
pub open spec fn hex_digits(value: u32) -> Seq<char>
    decreases value,
{
    if value < 16 {
        seq![hex_digit(value)]
    } else {
        hex_digits(value / 16).push(hex_digit(value % 16))
    }
}

/// The escape of `c` by its number: `\u{`, the number in hexadecimal
/// notation, `}`.
pub open spec fn unicode_escape(c: char) -> Seq<char> {
    seq!['\\', 'u', '{'] + hex_digits(c as u32) + seq!['}']
}

/// The escape of `c` that is legal in the literals of many languages: a
/// backslash and a letter for tab, carriage return and line feed, a backslash
/// before a quote or a backslash, the character itself if it is printable
/// ASCII, and else the escape by its number.
pub open spec fn default_escape(c: char) -> Seq<char> {
    if c == '\t' {
        seq!['\\', 't']
    } else if c == '\r' {
        seq!['\\', 'r']
    } else if c == '\n' {
        seq!['\\', 'n']
    } else if c == '\'' || c == '"' || c == '\\' {
        seq!['\\', c]
    } else if ' ' <= c <= '~' {
        seq![c]
    } else {
        unicode_escape(c)
    }
}

/// Each character of `chars` escaped by its number.
pub open spec fn escaped_unicode(chars: Seq<char>) -> Seq<char> {
    chars.map_values(|c: char| unicode_escape(c)).flatten()
}

/// Each character of `chars` escaped so as to be legal in the literals of
/// many languages.
pub open spec fn escaped_default(chars: Seq<char>) -> Seq<char> {
    chars.map_values(|c: char| default_escape(c)).flatten()
}

/// The offset of the first line feed in `chars`, or the length of `chars` if
/// there is none.
pub open spec fn line_end(chars: Seq<char>) -> int
    decreases chars.len(),
{
    if chars.len() == 0 || chars.first() == '\n' {
        0
    } else {
        1 + line_end(chars.drop_first())
    }
}

/// `line` without the carriage return at its end, if there is one.
pub open spec fn without_carriage_return(line: Seq<char>) -> Seq<char> {
    if line.len() > 0 && line.last() == '\r' {
        line.drop_last()
    } else {
        line
    }
}

/// The lines of `chars`. A line ends with a line feed, or with a carriage
/// return and a line feed, neither of which belongs to the line; the last
/// line needs no such end, and is kept as it is if it has none.
pub open spec fn lines_of(chars: Seq<char>) -> Seq<Seq<char>>
    decreases chars.len(),
{
    if chars.len() == 0 {
        Seq::empty()
    } else if !(0 <= line_end(chars) < chars.len()) {
        seq![chars]
    } else {
        seq![without_carriage_return(chars.take(line_end(chars)))] + lines_of(
            chars.skip(line_end(chars) + 1),
        )
    }
}

/// The number of characters at the start of `chars` that are no space, as
/// `is_space` tells.
pub open spec fn piece_end(chars: Seq<char>, is_space: spec_fn(char) -> bool) -> int
    decreases chars.len(),
{
    if chars.len() == 0 || is_space(chars.first()) {
        0
    } else {
        1 + piece_end(chars.drop_first(), is_space)
    }
}

/// The pieces of `chars` between spaces, as `is_space` tells: the longest
/// runs of characters that are no space, in their order.
pub open spec fn pieces(chars: Seq<char>, is_space: spec_fn(char) -> bool) -> Seq<Seq<char>>
    decreases chars.len(),
{
    if chars.len() == 0 {
        Seq::empty()
    } else if is_space(chars.first()) {
        pieces(chars.drop_first(), is_space)
    } else if !(0 < piece_end(chars, is_space) <= chars.len()) {
        seq![chars]
    } else {
        seq![chars.take(piece_end(chars, is_space))] + pieces(
            chars.skip(piece_end(chars, is_space)),
            is_space,
        )
    }
}

/// The pieces of `chars` between ASCII whitespace.
pub open spec fn ascii_whitespace_pieces(chars: Seq<char>) -> Seq<Seq<char>> {
    pieces(chars, |c: char| is_ascii_space(c))
}

/// `chars` written `count` times in a row.
pub open spec fn repeated(chars: Seq<char>, count: nat) -> Seq<char>
    decreases count,
{
    if count == 0 {
        Seq::empty()
    } else {
        repeated(chars, (count - 1) as nat) + chars
    }
}

/// Whether `c` is one of the five characters of ASCII whitespace: space, tab,
/// line feed, form feed and carriage return.
pub open spec fn is_ascii_space(c: char) -> bool {
    c == ' ' || c == '\t' || c == '\n' || c == '\x0C' || c == '\r'
}

/// `chars` without the ASCII whitespace at its start.
pub open spec fn trimmed_start(chars: Seq<char>) -> Seq<char>
    decreases chars.len(),
{
    if chars.len() > 0 && is_ascii_space(chars.first()) {
        trimmed_start(chars.drop_first())
    } else {
        chars
    }
}

/// `chars` without the ASCII whitespace at its end.
pub open spec fn trimmed_end(chars: Seq<char>) -> Seq<char>
    decreases chars.len(),
{
    if chars.len() > 0 && is_ascii_space(chars.last()) {
        trimmed_end(chars.drop_last())
    } else {
        chars
    }
}

/// `chars` without the ASCII whitespace at its start and at its end.
pub open spec fn trimmed(chars: Seq<char>) -> Seq<char> {
    trimmed_end(trimmed_start(chars))
}

/// The lower-case form of `c` if it is an ASCII capital letter, else `c`.
pub open spec fn ascii_lower(c: char) -> char {
    if 'A' <= c <= 'Z' {
        ((c as u32) + 32) as char
    } else {
        c
    }
}

/// The upper-case form of `c` if it is an ASCII small letter, else `c`.
pub open spec fn ascii_upper(c: char) -> char {
    if 'a' <= c <= 'z' {
        ((c as u32) - 32) as char
    } else {
        c
    }
}

/// Whether `a` and `b` are the same but for the case of ASCII letters.
pub open spec fn eq_ignoring_ascii_case(a: Seq<char>, b: Seq<char>) -> bool {
    &&& a.len() == b.len()
    &&& forall|i: int| 0 <= i < a.len() ==> ascii_lower(#[trigger] a[i]) == ascii_lower(b[i])
}

/// The UTF-16 encoding of `c`: one unit, or two for a character beyond the
/// basic plane.
pub open spec fn utf16_of_char(c: char) -> Seq<u16> {
    let scalar = c as u32;
    if scalar < 0x10000 {
        seq![scalar as u16]
    } else {
        seq![
            (0xD800 + (scalar - 0x10000) / 0x400) as u16,
            (0xDC00 + (scalar - 0x10000) % 0x400) as u16,
        ]
    }
}

/// The UTF-16 encoding of `chars`.
pub open spec fn utf16_of(chars: Seq<char>) -> Seq<u16>
    decreases chars.len(),
{
    if chars.len() == 0 {
        Seq::empty()
    } else {
        utf16_of_char(chars.first()) + utf16_of(chars.drop_first())
    }
}

/// Each character of `chars` with the byte offset at which its encoding
/// starts.
pub open spec fn indexed(chars: Seq<char>) -> Seq<(usize, char)> {
    Seq::new(chars.len(), |i: int| (byte_len(chars.take(i)) as usize, chars[i]))
}

/// Every character takes between one and four bytes.
pub proof fn lemma_char_width(c: char)
    ensures
        1 <= char_width(c) <= 4,
{
}

/// The encoding of a concatenation is the concatenation of the encodings.
pub proof fn lemma_encode_concat(a: Seq<char>, b: Seq<char>)
    ensures
        encode_utf8(a + b) == encode_utf8(a) + encode_utf8(b),
    decreases a.len(),
{
    if a.len() == 0 {
        assert(a + b =~= b);
        assert(encode_utf8(a) + encode_utf8(b) =~= encode_utf8(b));
    } else {
        assert((a + b).drop_first() =~= a.drop_first() + b);
        lemma_encode_concat(a.drop_first(), b);
        assert(encode_utf8(a + b) =~= encode_utf8(a) + encode_utf8(b));
    }
}

/// The encoding of a single character is the encoding of its scalar value.
pub proof fn lemma_encode_single(c: char)
    ensures
        encode_utf8(seq![c]) == encode_scalar(c as u32),
        byte_len(seq![c]) == char_width(c),
{
    let one = seq![c];
    assert(one.drop_first() =~= Seq::<char>::empty());
    assert(encode_utf8(one.drop_first()) =~= Seq::<u8>::empty());
    assert(encode_utf8(one) =~= encode_scalar(one[0] as u32) + encode_utf8(one.drop_first()));
    assert(encode_utf8(one) =~= encode_scalar(c as u32));
}

/// Only the empty sequence of characters has an empty encoding.
pub proof fn lemma_byte_len_zero(chars: Seq<char>)
    ensures
        byte_len(chars) == 0 <==> chars.len() == 0,
{
    if chars.len() > 0 {
        lemma_char_width(chars[0]);
    }
}

/// Byte lengths add up over concatenation.
pub proof fn lemma_byte_len_concat(a: Seq<char>, b: Seq<char>)
    ensures
        byte_len(a + b) == byte_len(a) + byte_len(b),
{
    lemma_encode_concat(a, b);
}

/// Appending a character adds its width to the byte length.
pub proof fn lemma_byte_len_push(chars: Seq<char>, c: char)
    ensures
        byte_len(chars.push(c)) == byte_len(chars) + char_width(c),
{
    assert(chars.push(c) =~= chars + seq![c]);
    lemma_byte_len_concat(chars, seq![c]);
    lemma_encode_single(c);
}

/// A non-empty sequence consists of one character exactly when its encoding
/// is as long as that of its first character.
pub proof fn lemma_single_char(chars: Seq<char>)
    requires
        chars.len() > 0,
    ensures
        byte_len(chars) == char_width(chars[0]) <==> chars.len() == 1,
{
    lemma_byte_len_zero(chars.drop_first());
}

/// Valid UTF-8 of at least one byte decodes to at least one character, and
/// encoding what was decoded gives the bytes back.
pub proof fn lemma_decode_non_empty(bytes: Seq<u8>)
    requires
        valid_utf8(bytes),
        bytes.len() > 0,
    ensures
        decode_utf8(bytes).len() > 0,
        encode_utf8(decode_utf8(bytes)) == bytes,
{
    decode_utf8_encode_utf8(bytes);
}

/// Decoding undoes encoding, and the encoding is valid UTF-8.
pub proof fn lemma_round_trip(chars: Seq<char>)
    ensures
        valid_utf8(encode_utf8(chars)),
        decode_utf8(encode_utf8(chars)) == chars,
{
    encode_utf8_valid_utf8(chars);
    encode_utf8_decode_utf8(chars);
}

/// Splitting at a boundary loses nothing: the two parts, put together again,
/// are the whole, each part is encoded by its share of the bytes, and the
/// first part is empty only for the offset zero.
pub proof fn lemma_split(chars: Seq<char>, index: int)
    requires
        is_boundary(chars, index),
    ensures
        0 <= index <= byte_len(chars),
        prefix(chars, index) + suffix(chars, index) == chars,
        encode_utf8(prefix(chars, index)) == encode_utf8(chars).subrange(0, index),
        encode_utf8(suffix(chars, index)) == encode_utf8(chars).subrange(
            index,
            byte_len(chars) as int,
        ),
        byte_len(prefix(chars, index)) == index,
        byte_len(suffix(chars, index)) == byte_len(chars) - index,
        index > 0 <==> prefix(chars, index).len() > 0,
        index < byte_len(chars) <==> suffix(chars, index).len() > 0,
{
    let bytes = encode_utf8(chars);
    lemma_round_trip(chars);
    lemma_boundary_in_range(bytes, index);
    valid_utf8_split(bytes, index);
    decode_utf8_split(bytes, index);
    decode_utf8_encode_utf8(bytes.subrange(0, index));
    decode_utf8_encode_utf8(bytes.subrange(index, bytes.len() as int));
    lemma_byte_len_zero(prefix(chars, index));
    lemma_byte_len_zero(suffix(chars, index));
}

/// A boundary lies within the bytes.
pub proof fn lemma_boundary_in_range(bytes: Seq<u8>, index: int)
    requires
        valid_utf8(bytes),
        is_char_boundary(bytes, index),
    ensures
        0 <= index <= bytes.len(),
    decreases bytes.len(),
{
    if index != 0 && 0 <= index <= bytes.len() {
    }
}

/// The start and the end of a string are boundaries.
pub proof fn lemma_boundary_ends(chars: Seq<char>)
    ensures
        is_boundary(chars, 0),
        is_boundary(chars, byte_len(chars) as int),
        prefix(chars, byte_len(chars) as int) == chars,
        suffix(chars, 0) == chars,
{
    let bytes = encode_utf8(chars);
    lemma_round_trip(chars);
    is_char_boundary_start_end_of_seq(bytes);
    assert(bytes.subrange(0, bytes.len() as int) =~= bytes);
}

/// Repeating multiplies both the number of characters and the byte length.
pub proof fn lemma_repeated_len(chars: Seq<char>, count: nat)
    ensures
        repeated(chars, count).len() == count * chars.len(),
        byte_len(repeated(chars, count)) == count * byte_len(chars),
    decreases count,
{
    let n = chars.len();
    let b = byte_len(chars);
    if count == 0 {
        assert(count * n == 0 && count * b == 0) by (nonlinear_arith)
            requires
                count == 0,
        ;
    } else {
        let less = (count - 1) as nat;
        lemma_repeated_len(chars, less);
        lemma_byte_len_concat(repeated(chars, less), chars);
        assert(count * n == less * n + n && count * b == less * b + b) by (nonlinear_arith)
            requires
                count == less + 1,
        ;
    }
}

/// The UTF-16 encoding of a non-empty sequence of characters is not empty.
pub proof fn lemma_utf16_non_empty(chars: Seq<char>)
    requires
        chars.len() > 0,
    ensures
        utf16_of(chars).len() > 0,
{
}

/// The characters before any position take no more bytes than all of them,
/// and one character more takes its width more.
pub proof fn lemma_byte_len_take(chars: Seq<char>, count: int)
    requires
        0 <= count <= chars.len(),
    ensures
        byte_len(chars.take(count)) <= byte_len(chars),
        count < chars.len() ==> byte_len(chars.take(count + 1)) == byte_len(chars.take(count))
            + char_width(chars[count]),
{
    assert(chars =~= chars.take(count) + chars.skip(count));
    lemma_byte_len_concat(chars.take(count), chars.skip(count));
    if count < chars.len() {
        assert(chars.take(count + 1) =~= chars.take(count).push(chars[count]));
        lemma_byte_len_push(chars.take(count), chars[count]);
    }
}

/// Joining one string more appends it.
pub proof fn lemma_joined_push(strings: Seq<&str>, string: &str)
    ensures
        joined(strings.push(string)) == joined(strings) + string@,
{
    let views = strings.map_values(|string: &str| string@);
    assert(strings.push(string).map_values(|string: &str| string@) =~= views.push(string@));
    views.lemma_flatten_push(string@);
}

/// The first strings of a sequence, joined, take no more bytes than all of
/// them.
pub proof fn lemma_joined_take(strings: Seq<&str>, count: int)
    requires
        0 <= count <= strings.len(),
    ensures
        byte_len(joined(strings.take(count))) <= byte_len(joined(strings)),
    decreases strings.len() - count,
{
    if count < strings.len() {
        lemma_joined_take(strings, count + 1);
        assert(strings.take(count + 1) =~= strings.take(count).push(strings[count]));
        lemma_joined_push(strings.take(count), strings[count]);
        lemma_byte_len_concat(joined(strings.take(count)), strings[count]@);
    } else {
        assert(strings.take(count) =~= strings);
    }
}

/// A non-empty sequence of characters has at least one line.
pub proof fn lemma_lines_non_empty(chars: Seq<char>)
    requires
        chars.len() > 0,
    ensures
        lines_of(chars).len() > 0,
{
}

/// Escaping a non-empty sequence of characters gives a non-empty sequence.
pub proof fn lemma_escaped_non_empty(chars: Seq<char>)
    requires
        chars.len() > 0,
    ensures
        escaped_unicode(chars).len() > 0,
        escaped_default(chars).len() > 0,
{
    let by_number = chars.map_values(|c: char| unicode_escape(c));
    let by_default = chars.map_values(|c: char| default_escape(c));
    assert(by_number.first() == unicode_escape(chars.first()));
    assert(by_default.first() == default_escape(chars.first()));
    assert(unicode_escape(chars.first()).len() > 0);
    assert(default_escape(chars.first()).len() > 0);
    assert(by_number.flatten() == by_number.first() + by_number.drop_first().flatten());
    assert(by_default.flatten() == by_default.first() + by_default.drop_first().flatten());
}

/// A run of characters that are no space ends within the characters.
pub proof fn lemma_piece_end(chars: Seq<char>, is_space: spec_fn(char) -> bool)
    ensures
        0 <= piece_end(chars, is_space) <= chars.len(),
        chars.len() > 0 && !is_space(chars.first()) ==> piece_end(chars, is_space) > 0,
    decreases chars.len(),
{
    if chars.len() > 0 && !is_space(chars.first()) {
        lemma_piece_end(chars.drop_first(), is_space);
    }
}

/// No piece between spaces is empty.
pub proof fn lemma_pieces_non_empty(chars: Seq<char>, is_space: spec_fn(char) -> bool)
    ensures
        forall|i: int|
            0 <= i < pieces(chars, is_space).len() ==> (#[trigger] pieces(
                chars,
                is_space,
            )[i]).len() > 0,
    decreases chars.len(),
{
    let all = pieces(chars, is_space);
    if chars.len() == 0 {
    } else if is_space(chars.first()) {
        lemma_pieces_non_empty(chars.drop_first(), is_space);
        assert(all == pieces(chars.drop_first(), is_space));
    } else {
        lemma_piece_end(chars, is_space);
        let end = piece_end(chars, is_space);
        let rest = pieces(chars.skip(end), is_space);
        lemma_pieces_non_empty(chars.skip(end), is_space);
        assert(all == seq![chars.take(end)] + rest);
        assert forall|i: int| 0 <= i < all.len() implies (#[trigger] all[i]).len() > 0 by {
            if i == 0 {
                assert(all[0] == chars.take(end));
            } else {
                assert(all[i] == rest[i - 1]);
            }
        }
    }
}

/// Characters that are all spaces have no piece between them.
pub proof fn lemma_pieces_of_spaces(chars: Seq<char>, is_space: spec_fn(char) -> bool)
    requires
        forall|i: int| 0 <= i < chars.len() ==> is_space(#[trigger] chars[i]),
    ensures
        pieces(chars, is_space).len() == 0,
    decreases chars.len(),
{
    if chars.len() > 0 {
        assert(is_space(chars[0]));
        assert forall|i: int| 0 <= i < chars.drop_first().len() implies is_space(
            #[trigger] chars.drop_first()[i],
        ) by {
            assert(chars.drop_first()[i] == chars[i + 1]);
        }
        lemma_pieces_of_spaces(chars.drop_first(), is_space);
    }
}

/// Taking the first character off takes its width off the byte length.
pub proof fn lemma_byte_len_drop_first(chars: Seq<char>)
    requires
        chars.len() > 0,
    ensures
        byte_len(chars) == char_width(chars.first()) + byte_len(chars.drop_first()),
{
}

/// Taking the last character off takes its width off the byte length.
pub proof fn lemma_byte_len_drop_last(chars: Seq<char>)
    requires
        chars.len() > 0,
    ensures
        byte_len(chars) == byte_len(chars.drop_last()) + char_width(chars.last()),
{
    assert(chars =~= chars.drop_last().push(chars.last()));
    lemma_byte_len_push(chars.drop_last(), chars.last());
}

} // verus!
