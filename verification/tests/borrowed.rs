use non_empty_str::size::Size;
use non_empty_str::str::{FromNonEmptyStr, NonEmptyStr, NonEmptyUtf8Error};
use non_empty_str::string::NonEmptyString;

fn size(value: usize) -> Size {
    Size::new(value).unwrap()
}

#[test]
fn constructing_keeps_the_string() {
    for text in ["a", "hello", "h\u{e9}llo", "\u{65e5}\u{672c}", " ", "\n"] {
        assert_eq!(NonEmptyStr::try_from_str(text).unwrap().as_str(), text);
        assert_eq!(NonEmptyStr::try_new(text).unwrap().as_str(), text);
        assert_eq!(NonEmptyStr::from_str(text).unwrap().as_str(), text);
        assert_eq!(NonEmptyStr::new(text).unwrap().as_str(), text);
        assert_eq!(NonEmptyStr::from_str_unchecked(text).as_str(), text);
        assert_eq!(NonEmptyStr::new_unchecked(text).as_str(), text);
    }
}

#[test]
fn constructing_copies_nothing() {
    let text = String::from("hello");
    let non_empty = NonEmptyStr::from_str(&text).unwrap();
    assert!(std::ptr::eq(non_empty.as_str(), text.as_str()));
    assert_eq!(non_empty.as_str().as_ptr(), text.as_ptr());
    assert_eq!(non_empty.as_bytes().as_ptr(), text.as_ptr());
}

#[test]
fn a_non_empty_string_is_never_empty() {
    let non_empty = NonEmptyStr::from_str("a").unwrap();
    assert!(!non_empty.is_empty());
    assert_eq!(non_empty.len().get(), 1);
}

#[test]
fn len_counts_bytes() {
    assert_eq!(NonEmptyStr::from_str("h\u{e9}llo").unwrap().len().get(), 6);
    assert_eq!(NonEmptyStr::from_str("\u{1f600}").unwrap().len().get(), 4);
}

#[test]
fn bytes_are_the_utf8_encoding() {
    let non_empty = NonEmptyStr::from_str("h\u{e9}").unwrap();
    assert_eq!(non_empty.as_bytes(), &[0x68, 0xC3, 0xA9]);
    assert_eq!(non_empty.as_non_empty_bytes().as_slice(), &[0x68, 0xC3, 0xA9]);
    assert_eq!(non_empty.to_non_empty_bytes().into_vec(), vec![0x68, 0xC3, 0xA9]);
}

#[test]
fn valid_bytes_are_read() {
    let bytes = [0x68, 0xC3, 0xA9];
    assert_eq!(NonEmptyStr::from_utf8(&bytes).unwrap().as_str(), "h\u{e9}");
    assert_eq!(NonEmptyStr::from_utf8_unchecked(&bytes).as_str(), "h\u{e9}");
    let non_empty = non_empty_slice::NonEmptyBytes::from_slice(&bytes).unwrap();
    assert_eq!(NonEmptyStr::from_non_empty_utf8(non_empty).unwrap().as_str(), "h\u{e9}");
    assert_eq!(NonEmptyStr::from_non_empty_utf8_unchecked(non_empty).as_str(), "h\u{e9}");
}

#[test]
fn invalid_bytes_report_where_they_stop_being_valid() {
    let bytes = [b'a', b'b', 0xFF, b'c'];
    let non_empty = non_empty_slice::NonEmptyBytes::from_slice(&bytes).unwrap();
    let error = NonEmptyStr::from_non_empty_utf8(non_empty).unwrap_err();
    assert_eq!(error.valid_up_to(), 2);
    assert_eq!(error.get().valid_up_to(), 2);
    assert_eq!(NonEmptyUtf8Error::new(error.get()), error);

    let cut = [0xC3];
    let non_empty = non_empty_slice::NonEmptyBytes::from_slice(&cut).unwrap();
    assert_eq!(NonEmptyStr::from_non_empty_utf8(non_empty).unwrap_err().valid_up_to(), 0);
}

#[test]
fn boundaries_lie_between_characters() {
    let non_empty = NonEmptyStr::from_str("h\u{e9}llo").unwrap();
    assert!(non_empty.is_char_boundary(0));
    assert!(non_empty.is_char_boundary(1));
    assert!(!non_empty.is_char_boundary(2));
    assert!(non_empty.is_char_boundary(3));
    assert!(non_empty.is_char_boundary(6));
    assert!(!non_empty.is_char_boundary(7));
}

#[test]
fn split_at_leaves_a_non_empty_left_part() {
    let non_empty = NonEmptyStr::from_str("h\u{e9}llo").unwrap();
    let (left, right) = non_empty.split_at(size(1));
    assert_eq!(left.as_str(), "h");
    assert_eq!(right, "\u{e9}llo");
    let (left, right) = non_empty.split_at(size(3));
    assert_eq!(left.as_str(), "h\u{e9}");
    assert_eq!(right, "llo");
    let (left, right) = non_empty.split_at(size(6));
    assert_eq!(left.as_str(), "h\u{e9}llo");
    assert_eq!(right, "");
}

#[test]
fn split_at_checked_rejects_what_is_no_boundary() {
    let non_empty = NonEmptyStr::from_str("h\u{e9}llo").unwrap();
    assert!(non_empty.split_at_checked(size(2)).is_none());
    assert!(non_empty.split_at_checked(size(7)).is_none());
    let (left, right) = non_empty.split_at_checked(size(3)).unwrap();
    assert_eq!(left.as_str(), "h\u{e9}");
    assert_eq!(right, "llo");
    let (left, right) = non_empty.split_at_checked(size(6)).unwrap();
    assert_eq!(left.as_str(), "h\u{e9}llo");
    assert_eq!(right, "");
}

#[test]
fn a_size_is_never_zero() {
    assert!(Size::new(0).is_none());
    assert_eq!(Size::new(1).unwrap().get(), 1);
    assert_eq!(Size::new(usize::MAX).unwrap().get(), usize::MAX);
    assert_eq!(Size::new_unchecked(7).get(), 7);
    assert!(size(2) < size(3));
    assert_eq!(size(4), size(4));
}

#[test]
fn parsing_into_an_owned_string_copies() {
    let non_empty = NonEmptyStr::from_str("hello").unwrap();
    let parsed: NonEmptyString = non_empty.parse_non_empty().unwrap();
    assert_eq!(parsed.as_str(), "hello");
    let parsed = NonEmptyString::from_non_empty_str(non_empty);
    assert_eq!(parsed.as_str(), "hello");
    let parsed = <NonEmptyString as FromNonEmptyStr>::from_non_empty_str(non_empty).unwrap();
    assert_eq!(parsed.as_str(), "hello");
}

#[test]
fn ascii_is_told_from_the_rest() {
    assert!(NonEmptyStr::from_str("hello").unwrap().is_ascii());
    assert!(!NonEmptyStr::from_str("h\u{e9}llo").unwrap().is_ascii());
}

#[test]
fn case_of_ascii_letters_can_be_ignored() {
    let left = NonEmptyStr::from_str("Hello, W\u{f6}rld").unwrap();
    assert!(left.eq_ignore_ascii_case(NonEmptyStr::from_str("hELLO, w\u{f6}RLD").unwrap()));
    assert!(!left.eq_ignore_ascii_case(NonEmptyStr::from_str("hello, w\u{d6}rld").unwrap()));
    assert!(!left.eq_ignore_ascii_case(NonEmptyStr::from_str("hello").unwrap()));
}

#[test]
fn trimming_may_leave_nothing() {
    let blank = NonEmptyStr::from_str(" \t\n\r\u{c}").unwrap();
    assert_eq!(blank.trim_ascii(), "");
    assert_eq!(blank.trim_ascii_start(), "");
    assert_eq!(blank.trim_ascii_end(), "");
    let padded = NonEmptyStr::from_str(" \ta b\n ").unwrap();
    assert_eq!(padded.trim_ascii(), "a b");
    assert_eq!(padded.trim_ascii_start(), "a b\n ");
    assert_eq!(padded.trim_ascii_end(), " \ta b");
    let other = NonEmptyStr::from_str("\u{a0}a\u{a0}").unwrap();
    assert_eq!(other.trim_ascii(), "\u{a0}a\u{a0}");
}

#[test]
fn case_is_changed_in_a_copy() {
    let non_empty = NonEmptyStr::from_str("Hello \u{c9}").unwrap();
    assert_eq!(non_empty.to_lowercase(), "hello \u{e9}");
    assert_eq!(non_empty.to_uppercase(), "HELLO \u{c9}");
    assert_eq!(non_empty.to_non_empty_lowercase_checked().unwrap().as_str(), "hello \u{e9}");
    assert_eq!(non_empty.to_non_empty_uppercase_checked().unwrap().as_str(), "HELLO \u{c9}");
    assert_eq!(non_empty.to_non_empty_lowercase().as_str(), "hello \u{e9}");
    assert_eq!(non_empty.to_non_empty_uppercase().as_str(), "HELLO \u{c9}");
    let sharp = NonEmptyStr::from_str("\u{df}").unwrap();
    assert_eq!(sharp.to_non_empty_uppercase().as_str(), "SS");
}

#[test]
fn repeating_multiplies_the_length() {
    let non_empty = NonEmptyStr::from_str("ab").unwrap();
    let repeated = non_empty.repeat(size(3));
    assert_eq!(repeated.as_str(), "ababab");
    assert_eq!(repeated.len().get(), 3 * non_empty.len().get());
    assert_eq!(non_empty.repeat(size(1)).as_str(), "ab");
    let wide = NonEmptyStr::from_str("\u{e9}").unwrap();
    assert_eq!(wide.repeat(size(4)).len().get(), 8);
}

#[test]
fn copies_are_equal_to_their_source() {
    let non_empty = NonEmptyStr::from_str("hello").unwrap();
    let copy = non_empty;
    assert_eq!(copy, non_empty);
    assert_eq!(non_empty.to_non_empty_string().as_str(), "hello");
    assert!(NonEmptyStr::from_str("a").unwrap() < NonEmptyStr::from_str("b").unwrap());
}

#[test]
fn a_copy_as_a_string_is_equal() {
    assert_eq!(NonEmptyStr::from_str("h\u{e9}").unwrap().to_string(), "h\u{e9}");
    let owned = NonEmptyString::new("h\u{e9}".to_owned()).unwrap();
    assert_eq!(owned.to_string(), "h\u{e9}");
}
