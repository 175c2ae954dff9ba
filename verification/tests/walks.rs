use non_empty_str::iter::{
    Bytes, CharIndices, Chars, EncodeUtf16, EscapeDebug, EscapeDefault, EscapeUnicode, Lines,
    SplitAsciiWhitespace, SplitWhitespace,
};
use non_empty_str::str::NonEmptyStr;

fn non_empty(text: &str) -> NonEmptyStr<'_> {
    NonEmptyStr::from_str(text).unwrap()
}

fn strs<'s>(pieces: Vec<NonEmptyStr<'s>>) -> Vec<&'s str> {
    pieces.iter().map(|piece| piece.as_str()).collect()
}

#[test]
fn bytes_are_walked_through() {
    assert_eq!(non_empty("h\u{e9}").bytes().to_vec(), vec![0x68, 0xC3, 0xA9]);
    assert_eq!(Bytes::new(non_empty("a")).to_vec(), vec![0x61]);
}

#[test]
fn characters_are_walked_through() {
    assert_eq!(non_empty("h\u{e9}\u{65e5}").chars().to_vec(), vec!['h', '\u{e9}', '\u{65e5}']);
    assert_eq!(Chars::new(non_empty("a")).to_vec(), vec!['a']);
}

#[test]
fn characters_come_with_their_offsets() {
    assert_eq!(
        non_empty("h\u{e9}\u{65e5}\u{1f600}!").char_indices().to_vec(),
        vec![(0, 'h'), (1, '\u{e9}'), (3, '\u{65e5}'), (6, '\u{1f600}'), (10, '!')]
    );
    assert_eq!(CharIndices::new(non_empty("a")).to_vec(), vec![(0, 'a')]);
    let text = "a\u{e9}\u{65e5}b";
    let expected: Vec<(usize, char)> = text.char_indices().collect();
    assert_eq!(non_empty(text).char_indices().to_vec(), expected);
}

#[test]
fn utf16_units_are_walked_through() {
    assert_eq!(non_empty("a\u{e9}").encode_utf16().to_vec(), vec![0x61, 0xE9]);
    assert_eq!(non_empty("\u{1f600}").encode_utf16().to_vec(), vec![0xD83D, 0xDE00]);
    assert_eq!(non_empty("\u{10000}").encode_utf16().to_vec(), vec![0xD800, 0xDC00]);
    assert_eq!(non_empty("\u{ffff}").encode_utf16().to_vec(), vec![0xFFFF]);
    assert_eq!(non_empty("\u{10ffff}").encode_utf16().to_vec(), vec![0xDBFF, 0xDFFF]);
    assert_eq!(EncodeUtf16::new(non_empty("a")).to_vec(), vec![0x61]);
}

#[test]
fn escapes_are_walked_through() {
    let text = non_empty("a\n\u{e9}\"");
    let debug: String = text.escape_debug().to_vec().into_iter().collect();
    assert_eq!(debug, "a\\n\u{e9}\\\"");
    let default: String = text.escape_default().to_vec().into_iter().collect();
    assert_eq!(default, "a\\n\\u{e9}\\\"");
    let unicode: String = text.escape_unicode().to_vec().into_iter().collect();
    assert_eq!(unicode, "\\u{61}\\u{a}\\u{e9}\\u{22}");
    assert_eq!(EscapeDebug::new(non_empty("a")).to_vec(), vec!['a']);
    assert_eq!(EscapeDefault::new(non_empty("\t")).to_vec(), vec!['\\', 't']);
    assert_eq!(EscapeUnicode::new(non_empty("a")).to_vec(), vec!['\\', 'u', '{', '6', '1', '}']);
}

#[test]
fn lines_are_walked_through() {
    assert_eq!(non_empty("a\nb\r\nc").lines().to_vec(), vec!["a", "b", "c"]);
    assert_eq!(non_empty("a\n").lines().to_vec(), vec!["a"]);
    assert_eq!(non_empty("\n").lines().to_vec(), vec![""]);
    assert_eq!(non_empty("\n\n").lines().to_vec(), vec!["", ""]);
    assert_eq!(non_empty("a\r").lines().to_vec(), vec!["a\r"]);
    assert_eq!(Lines::new(non_empty("a")).to_vec(), vec!["a"]);
}

#[test]
fn whitespace_alone_has_no_pieces() {
    assert!(non_empty(" \t\n").split_whitespace().to_vec().is_empty());
    assert!(non_empty(" \t\n").split_ascii_whitespace().to_vec().is_empty());
    assert!(non_empty("\u{a0}\u{2003}").split_whitespace().to_vec().is_empty());
}

#[test]
fn pieces_between_whitespace_are_non_empty() {
    assert_eq!(strs(non_empty("  a  bc\td ").split_whitespace().to_vec()), vec!["a", "bc", "d"]);
    assert_eq!(
        strs(non_empty("  a  bc\td ").split_ascii_whitespace().to_vec()),
        vec!["a", "bc", "d"]
    );
    assert_eq!(strs(non_empty("a\u{a0}b").split_whitespace().to_vec()), vec!["a", "b"]);
    assert_eq!(strs(non_empty("a\u{a0}b").split_ascii_whitespace().to_vec()), vec!["a\u{a0}b"]);
    assert_eq!(strs(SplitWhitespace::new(non_empty("a")).to_vec()), vec!["a"]);
    assert_eq!(strs(SplitAsciiWhitespace::new(non_empty("a")).to_vec()), vec!["a"]);
}
