use non_empty_str::boxed::EMPTY_BOXED_STR;
use non_empty_str::cow::NonEmptyCowStr;
use non_empty_str::str::{EmptyStr, MaybeEmptyUtf8Error, NonEmptyStr, EMPTY_STR};
use non_empty_str::string::{FromMaybeEmptyUtf8Error, NonEmptyString, EMPTY_STRING};

#[test]
fn empty_input_is_rejected_and_recovered() {
    let error = NonEmptyString::new(String::new()).unwrap_err();
    assert_eq!(error.to_string(), EMPTY_STRING);
    assert_eq!(error.recover(), "");
    assert_eq!(NonEmptyString::new(String::new()).unwrap_err().get(), "");
    assert!(NonEmptyString::new_ok(String::new()).is_none());

    assert_eq!(NonEmptyStr::try_from_str("").unwrap_err().recover(), "");
    assert_eq!(NonEmptyStr::try_new("").unwrap_err().recover(), "");
    assert!(NonEmptyStr::from_str("").is_none());
    assert!(NonEmptyStr::new("").is_none());

    let boxed: Box<str> = "".into();
    let error = NonEmptyStr::from_boxed_str(boxed).unwrap_err();
    assert_eq!(error.to_string(), EMPTY_BOXED_STR);
    assert_eq!(&*error.recover(), "");
    assert_eq!(&*NonEmptyStr::from_boxed_str("".into()).unwrap_err().get(), "");
    assert!(NonEmptyStr::from_boxed_str_ok("".into()).is_none());
}

#[test]
fn the_buffer_of_a_rejected_string_comes_back() {
    let empty = String::with_capacity(64);
    let address = empty.as_ptr();
    let back = NonEmptyString::new(empty).unwrap_err().recover();
    assert_eq!(back.as_ptr(), address);
    assert!(back.capacity() >= 64);
}

#[test]
fn the_error_can_be_dropped_on_construction() {
    assert_eq!(NonEmptyString::new_ok("a".to_owned()).unwrap().as_str(), "a");
    assert_eq!(NonEmptyStr::from_boxed_str_ok("a".into()).unwrap().as_str(), "a");
}

#[test]
fn empty_str_error_has_its_message() {
    assert_eq!(EmptyStr.to_string(), EMPTY_STR);
    assert_eq!(EMPTY_STR, "the string is empty");
    assert_eq!(EMPTY_STRING, "the string is empty");
    assert_eq!(EMPTY_BOXED_STR, "the boxed string is empty");
}

#[test]
fn pop_on_one_character_removes_nothing() {
    let mut string = NonEmptyString::new("a".to_owned()).unwrap();
    assert_eq!(string.pop(), None);
    assert_eq!(string.as_str(), "a");
    assert_eq!(string.as_bytes(), b"a");
}

#[test]
fn pop_on_two_characters_removes_the_last() {
    let mut string = NonEmptyString::new("ab".to_owned()).unwrap();
    assert_eq!(string.pop(), Some('b'));
    assert_eq!(string.as_str(), "a");
    assert_eq!(string.pop(), None);
    assert_eq!(string.as_str(), "a");
}

#[test]
fn invalid_bytes_are_rejected_and_recovered() {
    let error = NonEmptyString::from_utf8(vec![0xFF]).unwrap_err();
    match error {
        FromMaybeEmptyUtf8Error::Utf8(error) => {
            assert_eq!(error.as_non_empty_bytes().as_slice(), &[0xFF]);
            assert_eq!(error.non_empty_error().valid_up_to(), 0);
            let (cause, bytes) = error.recover();
            assert_eq!(cause.get().valid_up_to(), 0);
            assert_eq!(bytes.into_vec(), vec![0xFF]);
        }
        FromMaybeEmptyUtf8Error::Empty(_) => panic!("the bytes are not empty"),
    }

    let bytes = [0xFF];
    match NonEmptyStr::from_utf8(&bytes) {
        Err(MaybeEmptyUtf8Error::Utf8(error)) => assert_eq!(error.valid_up_to(), 0),
        _ => panic!("the bytes are not empty and not valid"),
    }
}

#[test]
fn no_bytes_are_rejected_as_empty() {
    match NonEmptyString::from_utf8(Vec::new()) {
        Err(FromMaybeEmptyUtf8Error::Empty(error)) => assert_eq!(error.get(), Vec::<u8>::new()),
        _ => panic!("there are no bytes"),
    }
    assert!(matches!(NonEmptyStr::from_utf8(&[]), Err(MaybeEmptyUtf8Error::Empty(_))));
}

#[test]
fn emptiness_is_tested_before_validity() {
    assert!(matches!(
        NonEmptyString::from_utf8(vec![]),
        Err(FromMaybeEmptyUtf8Error::Empty(_))
    ));
    assert!(matches!(
        NonEmptyString::from_utf8(vec![0x80]),
        Err(FromMaybeEmptyUtf8Error::Utf8(_))
    ));
    assert_eq!(NonEmptyString::from_utf8(vec![0x61]).unwrap().as_str(), "a");
}

#[test]
fn owning_a_borrowed_string_leaves_the_source_alone() {
    let source = String::from("x");
    let cow = NonEmptyCowStr::borrowed(NonEmptyStr::from_str(&source).unwrap());
    assert!(cow.is_borrowed());
    let mut owned = cow.into_owned();
    assert_eq!(owned.as_str(), "x");
    owned.push('y');
    assert_eq!(owned.as_str(), "xy");
    assert_eq!(source, "x");
}
