use chat_completion::error::{DecodeError, ErrorKind, Found, PathStep, Wanted};
use chat_completion::json::{Binary64, Json, JsonNumber};
use chat_completion::text::text_precedes;

#[test]
fn strings_are_ordered_character_by_character() {
    assert!(text_precedes("a", "b"));
    assert!(!text_precedes("b", "a"));
    assert!(text_precedes("apple", "apply"));
    assert!(text_precedes("Zebra", "apple"));
    assert!(text_precedes("10", "9"));
}

#[test]
fn a_prefix_comes_first() {
    assert!(text_precedes("", "a"));
    assert!(text_precedes("name", "names"));
    assert!(!text_precedes("names", "name"));
}

#[test]
fn no_string_precedes_itself() {
    assert!(!text_precedes("", ""));
    assert!(!text_precedes("same", "same"));
}

#[test]
fn order_follows_code_points_beyond_ascii() {
    assert!(text_precedes("z", "\u{e9}"));
    assert!(text_precedes("\u{e9}", "\u{4e2d}"));
    assert!(text_precedes("\u{ffff}", "\u{10000}"));
    assert_eq!(text_precedes("\u{ffff}", "\u{10000}"), "\u{ffff}" < "\u{10000}");
}

#[test]
fn order_agrees_with_the_order_of_str() {
    let words = ["", "a", "ab", "b", "B", "\u{e9}t\u{e9}", "zz", "z", "city", "country"];
    for a in words {
        for b in words {
            assert_eq!(text_precedes(a, b), a < b, "{:?} {:?}", a, b);
        }
    }
}

#[test]
fn a_failure_is_seen_from_where_it_is_reported() {
    let error = DecodeError::new(ErrorKind::TypeMismatch, Wanted::Integer, Found::Text)
        .at_index(2)
        .at_key("choices");
    assert_eq!(error.kind, ErrorKind::TypeMismatch);
    assert_eq!(
        error.path,
        vec![PathStep::Key("choices".to_string()), PathStep::Index(2)]
    );
    assert_eq!(error.message(), "expected an integer, found a string");
}

#[test]
fn every_kind_of_document_is_named() {
    assert_eq!(Json::Null.found(), Found::Null);
    assert_eq!(Json::Bool(false).found(), Found::Bool);
    assert_eq!(Json::Number(JsonNumber::Integer(0)).found(), Found::Number);
    assert_eq!(
        Json::Number(JsonNumber::Binary64(Binary64::new(0).unwrap())).found(),
        Found::Number
    );
    assert_eq!(Json::Str(String::new()).found(), Found::Text);
    assert_eq!(Json::Array(vec![]).found(), Found::Array);
    assert_eq!(Json::Object(vec![]).found(), Found::Object);
}

#[test]
fn words_for_what_was_wanted_and_found() {
    assert_eq!(Wanted::Text.words(), "a string");
    assert_eq!(Wanted::Integer.words(), "an integer");
    assert_eq!(Wanted::Number.words(), "a number");
    assert_eq!(Wanted::Bool.words(), "a boolean");
    assert_eq!(Wanted::Array.words(), "an array");
    assert_eq!(Wanted::Object.words(), "an object");
    assert_eq!(Wanted::TextOrArray.words(), "a string or an array of structured content");
    assert_eq!(Wanted::TextOrObject.words(), "a string or an object");
    assert_eq!(Wanted::Tag.words(), "a recognised tag");
    assert_eq!(Wanted::Member.words(), "a member");
    assert_eq!(Wanted::Shallower.words(), "fewer levels of nesting");
    assert_eq!(Found::Absent.words(), "nothing");
    assert_eq!(Found::Null.words(), "null");
    assert_eq!(Found::Object.words(), "an object");
}

#[test]
fn only_finite_patterns_are_numbers() {
    assert_eq!(Binary64::new(1.5f64.to_bits()).map(|b| b.bits()), Some(1.5f64.to_bits()));
    assert_eq!(Binary64::new(0).map(|b| b.bits()), Some(0));
    assert_eq!(Binary64::new((-0.0f64).to_bits()).map(|b| b.bits()), Some(1u64 << 63));
    assert!(Binary64::new(f64::MAX.to_bits()).is_some());
    assert!(Binary64::new(f64::MIN_POSITIVE.to_bits()).is_some());
    assert!(Binary64::new(0x7fef_ffff_ffff_ffff).is_some());
    assert!(Binary64::new(f64::INFINITY.to_bits()).is_none());
    assert!(Binary64::new(f64::NEG_INFINITY.to_bits()).is_none());
    assert!(Binary64::new(f64::NAN.to_bits()).is_none());
    assert!(Binary64::new(0x7ff0_0000_0000_0001).is_none());
    assert!(Binary64::new(u64::MAX).is_none());
}

#[test]
fn a_copy_of_a_document_is_equal_to_it() {
    let json = Json::Object(vec![
        ("a".to_string(), Json::Array(vec![Json::Null, Json::Bool(true)])),
        (
            "b".to_string(),
            Json::Number(JsonNumber::Binary64(Binary64::new(0x3ff8_0000_0000_0000).unwrap())),
        ),
        ("c".to_string(), Json::Str("x".to_string())),
    ]);
    assert_eq!(json.clone(), json);
}
