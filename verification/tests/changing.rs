use non_empty_str::size::Size;
use non_empty_str::str::{MaybeEmptyUtf8Error, NonEmptyStr};
use non_empty_str::string::NonEmptyString;

fn size(value: usize) -> Size {
    Size::new(value).unwrap()
}

#[test]
fn a_slice_is_wrapped_for_changing_unless_it_is_empty() {
    let mut empty = String::new();
    assert!(NonEmptyStr::try_from_mut_str(&mut empty).is_err());
    assert!(NonEmptyStr::try_new_mut(&mut empty).is_err());
    assert!(NonEmptyStr::from_mut_str(&mut empty).is_none());
    assert!(NonEmptyStr::new_mut(&mut empty).is_none());

    let mut text = String::from("h\u{e9}llo");
    assert_eq!(NonEmptyStr::try_from_mut_str(&mut text).unwrap().as_str(), "h\u{e9}llo");
    assert_eq!(NonEmptyStr::try_new_mut(&mut text).unwrap().as_str(), "h\u{e9}llo");
    assert_eq!(NonEmptyStr::from_mut_str(&mut text).unwrap().as_str(), "h\u{e9}llo");
    assert_eq!(NonEmptyStr::new_mut(&mut text).unwrap().as_str(), "h\u{e9}llo");
    assert_eq!(NonEmptyStr::from_mut_str_unchecked(&mut text).as_str(), "h\u{e9}llo");
    assert_eq!(NonEmptyStr::new_unchecked_mut(&mut text).as_str(), "h\u{e9}llo");
    let view = NonEmptyStr::from_mut_str(&mut text).unwrap();
    assert_eq!(view.as_non_empty_str().len().get(), 6);
}

#[test]
fn changes_reach_the_source() {
    let mut text = String::from("Hello, W\u{f6}rld");
    let mut view = NonEmptyStr::from_mut_str(&mut text).unwrap();
    view.make_ascii_uppercase();
    assert_eq!(view.as_str(), "HELLO, W\u{f6}RLD");
    assert_eq!(text, "HELLO, W\u{f6}RLD");
    let mut view = NonEmptyStr::from_mut_str(&mut text).unwrap();
    view.make_ascii_lowercase();
    assert_eq!(text, "hello, w\u{f6}rld");
    let mut view = NonEmptyStr::from_mut_str(&mut text).unwrap();
    view.as_mut_str().make_ascii_uppercase();
    assert_eq!(text, "HELLO, W\u{f6}RLD");
}

#[test]
fn the_parts_of_a_split_are_changed_apart() {
    let mut text = String::from("h\u{e9}llo");
    let mut view = NonEmptyStr::from_mut_str(&mut text).unwrap();
    let (mut left, right) = view.split_at_mut(size(3));
    assert_eq!(left.as_str(), "h\u{e9}");
    assert_eq!(right, "llo");
    left.make_ascii_uppercase();
    assert_eq!(text, "H\u{e9}llo");

    let mut view = NonEmptyStr::from_mut_str(&mut text).unwrap();
    assert!(view.split_at_mut_checked(size(2)).is_none());
    assert!(view.split_at_mut_checked(size(7)).is_none());
    let (left, right) = view.split_at_mut_checked(size(1)).unwrap();
    assert_eq!(left.as_str(), "H");
    right.make_ascii_uppercase();
    assert_eq!(text, "H\u{e9}LLO");
    let mut view = NonEmptyStr::from_mut_str(&mut text).unwrap();
    let (left, right) = view.split_at_mut_checked(size(6)).unwrap();
    assert_eq!(left.as_str(), "H\u{e9}LLO");
    assert_eq!(right, "");
}

#[test]
fn bytes_are_read_for_changing() {
    let mut bytes = vec![0x68, 0xC3, 0xA9];
    let mut view = NonEmptyStr::from_utf8_mut(&mut bytes).unwrap();
    assert_eq!(view.as_str(), "h\u{e9}");
    view.make_ascii_uppercase();
    assert_eq!(bytes, vec![0x48, 0xC3, 0xA9]);
    assert_eq!(NonEmptyStr::from_utf8_unchecked_mut(&mut bytes).as_str(), "H\u{e9}");

    let mut none: Vec<u8> = Vec::new();
    assert!(matches!(NonEmptyStr::from_utf8_mut(&mut none), Err(MaybeEmptyUtf8Error::Empty(_))));
    let mut invalid = vec![0x61, 0xFF];
    match NonEmptyStr::from_utf8_mut(&mut invalid) {
        Err(MaybeEmptyUtf8Error::Utf8(error)) => assert_eq!(error.valid_up_to(), 1),
        _ => panic!("the bytes are not empty and not valid"),
    }
    assert_eq!(invalid, vec![0x61, 0xFF]);

    let mut bytes = vec![0x61, 0x62];
    let non_empty = non_empty_slice::NonEmptyBytes::from_mut_slice(&mut bytes).unwrap();
    let mut view = NonEmptyStr::from_non_empty_utf8_mut(non_empty).unwrap();
    view.make_ascii_uppercase();
    assert_eq!(bytes, vec![0x41, 0x42]);
    let non_empty = non_empty_slice::NonEmptyBytes::from_mut_slice(&mut bytes).unwrap();
    assert_eq!(NonEmptyStr::from_non_empty_utf8_unchecked_mut(non_empty).as_str(), "AB");
    let mut invalid = vec![0xC3];
    let non_empty = non_empty_slice::NonEmptyBytes::from_mut_slice(&mut invalid).unwrap();
    assert_eq!(NonEmptyStr::from_non_empty_utf8_mut(non_empty).unwrap_err().valid_up_to(), 0);
}

#[test]
fn an_owned_string_is_changed_through_a_slice() {
    let mut string = NonEmptyString::new("hello".to_owned()).unwrap();
    string.as_mut_str().make_ascii_uppercase();
    assert_eq!(string.as_str(), "HELLO");
    let mut view = string.as_non_empty_mut_str();
    view.make_ascii_lowercase();
    assert_eq!(string.as_str(), "hello");
}
