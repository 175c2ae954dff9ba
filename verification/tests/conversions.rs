use non_empty_str::boxed::{EmptyBoxedStr, NonEmptyBoxedStr};
use non_empty_str::cow::NonEmptyCowStr;
use non_empty_str::str::NonEmptyStr;
use non_empty_str::string::{EmptyString, NonEmptyString};

fn owned(text: &str) -> NonEmptyString {
    NonEmptyString::new(text.to_owned()).unwrap()
}

fn boxed(text: &str) -> NonEmptyBoxedStr {
    NonEmptyStr::from_boxed_str(text.into()).unwrap()
}

#[test]
fn boxing_keeps_the_string() {
    for text in ["a", "h\u{e9}llo"] {
        assert_eq!(boxed(text).as_str(), text);
        assert_eq!(boxed(text).as_non_empty_str().as_str(), text);
        assert_eq!(&*boxed(text).into_boxed_str(), text);
        assert_eq!(NonEmptyStr::from_boxed_str_unchecked(text.into()).as_str(), text);
        assert_eq!(NonEmptyStr::from_non_empty_string(owned(text)).as_str(), text);
        assert_eq!(boxed(text).into_non_empty_string().as_str(), text);
        assert_eq!(&*boxed(text).into_boxed_bytes(), text.as_bytes());
        assert_eq!(boxed(text).into_non_empty_boxed_bytes().as_slice(), text.as_bytes());
        assert_eq!(boxed(text).clone(), boxed(text));
    }
}

#[test]
fn owned_strings_go_into_boxes_and_back() {
    for text in ["a", "h\u{e9}llo"] {
        assert_eq!(owned(text).into_non_empty_boxed_str().as_str(), text);
        assert_eq!(&*owned(text).into_boxed_str(), text);
        assert_eq!(&*owned(text).into_boxed_bytes(), text.as_bytes());
        assert_eq!(owned(text).into_non_empty_boxed_bytes().as_slice(), text.as_bytes());
        assert_eq!(NonEmptyString::from_non_empty_boxed_str(boxed(text)).as_str(), text);
    }
}

#[test]
fn empty_errors_go_from_one_kind_to_the_other() {
    let error: EmptyString = NonEmptyString::new(String::new()).unwrap_err();
    let error: EmptyBoxedStr = error.into_empty_boxed_str();
    assert_eq!(&*error.get(), "");
    let error: EmptyBoxedStr = NonEmptyStr::from_boxed_str("".into()).unwrap_err();
    let error: EmptyString = error.into_empty_string();
    assert_eq!(error.get(), "");
    let error = EmptyString::from_empty_boxed_str(NonEmptyStr::from_boxed_str("".into()).unwrap_err());
    assert_eq!(error.get(), "");
    let error = EmptyBoxedStr::from_empty_string(NonEmptyString::new(String::new()).unwrap_err());
    assert_eq!(&*error.get(), "");
}

#[test]
fn a_cow_is_borrowed_or_owned() {
    let source = owned("hello");
    let cow = NonEmptyCowStr::from_non_empty_string(&source);
    assert!(cow.is_borrowed());
    assert!(!cow.is_owned());
    assert_eq!(cow.as_str(), "hello");
    assert_eq!(cow.as_non_empty_str().as_str(), "hello");
    assert!(std::ptr::eq(cow.as_str(), source.as_str()));

    let cow = NonEmptyCowStr::owned(owned("hello"));
    assert!(cow.is_owned());
    assert!(!cow.is_borrowed());
    assert_eq!(cow.as_str(), "hello");
    assert_eq!(cow.as_non_empty_str().as_str(), "hello");
}

#[test]
fn an_owned_cow_is_handed_over_as_it_is() {
    let string = owned("hello");
    let address = string.as_str().as_ptr();
    let cow = NonEmptyCowStr::owned(string);
    let back = cow.into_owned();
    assert_eq!(back.as_str(), "hello");
    assert_eq!(back.as_str().as_ptr(), address);
}

#[test]
fn a_cow_goes_into_a_box() {
    let cow = NonEmptyCowStr::borrowed(NonEmptyStr::from_str("h\u{e9}").unwrap());
    assert_eq!(cow.into_non_empty_boxed_str().as_str(), "h\u{e9}");
    let cow = NonEmptyCowStr::owned(owned("h\u{e9}"));
    assert_eq!(cow.into_non_empty_boxed_str().as_str(), "h\u{e9}");
}

#[test]
fn making_a_cow_owned_copies_a_borrowed_one_only() {
    let source = String::from("hello");
    let mut cow = NonEmptyCowStr::borrowed(NonEmptyStr::from_str(&source).unwrap());
    cow.make_owned();
    assert!(cow.is_owned());
    assert_eq!(cow.as_str(), "hello");
    assert!(!std::ptr::eq(cow.as_str(), source.as_str()));
    let address = cow.as_str().as_ptr();
    cow.make_owned();
    assert!(cow.is_owned());
    assert_eq!(cow.as_str().as_ptr(), address);
}
