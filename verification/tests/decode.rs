//! Tests of the entry decoders, from JSON values and from JSON text.

use mf2_entry::error::DecodeError;
use mf2_entry::json::{lookup, JsonValue};
use mf2_entry::mf::{Entry, EntryProps, MFEntry};

fn str_val(s: &str) -> JsonValue {
    JsonValue::Str(s.to_owned())
}

#[test]
fn test_json_deserialize() {
    let input_json = r#"
    {
        "type": "h-entry",
        "properties": {
            "content": ["hello world"],
            "category": ["foo","bar"]
        }
    }"#;

    let entry: MFEntry = MFEntry::from_json_str(input_json).unwrap();
    if let MFEntry::Entry(e) = entry {
        assert_eq!(e.content, "hello world");
        assert_eq!(e.categories, ["foo", "bar"]);
    }
}

#[test]
fn test_urlencode_deserialize() {}

#[test]
fn mfentry_decodes_h_entry_object() {
    let input_json = r#"{
        "type": "h-entry",
        "properties": {
            "content": ["hello world"],
            "category": ["foo", "bar"]
        }
    }"#;

    let entry = MFEntry::from_json_str(input_json).unwrap();
    match entry {
        MFEntry::Entry(e) => {
            assert_eq!(e.title, "");
            assert_eq!(e.content, "hello world");
            assert_eq!(e.categories, vec!["foo".to_owned(), "bar".to_owned()]);
        },
        MFEntry::Unknown => panic!("expected the Entry variant"),
    }
}

#[test]
fn mfentry_unrecognized_tag_is_unknown() {
    // Same properties as the recognized case; only the tag differs.
    let input_json = r#"{
        "type": "h-card",
        "properties": {
            "content": ["hello world"],
            "category": ["foo", "bar"]
        }
    }"#;
    assert_eq!(MFEntry::from_json_str(input_json), Ok(MFEntry::Unknown));

    // The fallback is silent even when `properties` would not decode,
    // and even when it is absent altogether.
    assert_eq!(
        MFEntry::from_json_str(r#"{"type": "h-card", "properties": 7}"#),
        Ok(MFEntry::Unknown)
    );
    assert_eq!(MFEntry::from_json_str(r#"{"type": "h-review"}"#), Ok(MFEntry::Unknown));
}

#[test]
fn mfentry_tag_must_be_bare_string() {
    // The outer discriminator is not coerced: an array tag is a shape error.
    let input_json = r#"{
        "type": ["h-entry"],
        "properties": {
            "content": ["hello world"],
            "category": ["foo", "bar"]
        }
    }"#;
    assert_eq!(MFEntry::from_json_str(input_json), Err(DecodeError::TypeMismatch));
}

#[test]
fn mfentry_missing_tag_or_wrong_shape_fails() {
    assert_eq!(
        MFEntry::from_json_str(r#"{"properties": {}}"#),
        Err(DecodeError::MissingField)
    );
    assert_eq!(MFEntry::from_json_str(r#""h-entry""#), Err(DecodeError::TypeMismatch));
    assert_eq!(MFEntry::from_json_str("[1, 2]"), Err(DecodeError::TypeMismatch));
}

#[test]
fn mfentry_h_entry_without_properties_fails() {
    assert_eq!(
        MFEntry::from_json_str(r#"{"type": "h-entry"}"#),
        Err(DecodeError::MissingField)
    );
}

#[test]
fn malformed_text_is_syntax_error() {
    assert_eq!(MFEntry::from_json_str("{not json"), Err(DecodeError::Syntax));
    assert_eq!(Entry::from_json_str(""), Err(DecodeError::Syntax));
    assert_eq!(EntryProps::from_json_str("{\"content\": "), Err(DecodeError::Syntax));
}

#[test]
fn entry_type_field_is_coerced() {
    // Unlike `MFEntry`, the standalone `Entry` record reads its `type`
    // field through the coercion routine, so an array tag is accepted.
    let input_json = r#"{
        "type": ["h-entry"],
        "properties": {
            "content": "hi",
            "category": []
        }
    }"#;
    let entry = Entry::from_json_str(input_json).unwrap();
    assert_eq!(entry.entry_type, "h-entry");
    assert_eq!(entry.properties.content, "hi");
    assert_eq!(entry.properties.categories, Vec::<String>::new());

    // An unrecognized type is kept as-is, not collapsed to a fallback.
    let other = Entry::from_json_str(
        r#"{"type": "h-card", "properties": {"content": "c", "category": ["x"]}}"#,
    )
    .unwrap();
    assert_eq!(other.entry_type, "h-card");
}

#[test]
fn entry_missing_type_or_properties_fails() {
    assert_eq!(
        Entry::from_json_str(r#"{"properties": {"content": "c", "category": []}}"#),
        Err(DecodeError::MissingField)
    );
    assert_eq!(
        Entry::from_json_str(r#"{"type": "h-entry"}"#),
        Err(DecodeError::MissingField)
    );
    assert_eq!(
        Entry::from_json_str(r#"{"type": [], "properties": {}}"#),
        Err(DecodeError::EmptySequence)
    );
}

#[test]
fn props_missing_category_fails_despite_valid_content() {
    assert_eq!(
        EntryProps::from_json_str(r#"{"title": "t", "content": "hello"}"#),
        Err(DecodeError::MissingField)
    );
}

#[test]
fn props_missing_content_fails() {
    assert_eq!(
        EntryProps::from_json_str(r#"{"title": "t", "category": ["a"]}"#),
        Err(DecodeError::MissingField)
    );
}

#[test]
fn props_absent_title_defaults_to_empty() {
    let props =
        EntryProps::from_json_str(r#"{"content": "c", "category": ["a", "b"]}"#).unwrap();
    assert_eq!(props.title, "");
    assert_eq!(props.content, "c");
    assert_eq!(props.categories, vec!["a".to_owned(), "b".to_owned()]);
}

#[test]
fn props_present_title_is_kept() {
    let props = EntryProps::from_json_str(
        r#"{"title": "My note", "content": ["body"], "category": []}"#,
    )
    .unwrap();
    assert_eq!(props.title, "My note");
    assert_eq!(props.content, "body");
    assert!(props.categories.is_empty());
}

#[test]
fn props_title_of_wrong_shape_fails() {
    assert_eq!(
        EntryProps::from_json_str(r#"{"title": 3, "content": "c", "category": []}"#),
        Err(DecodeError::TypeMismatch)
    );
}

#[test]
fn props_category_must_be_array_of_strings() {
    assert_eq!(
        EntryProps::from_json_str(r#"{"content": "c", "category": "a"}"#),
        Err(DecodeError::TypeMismatch)
    );
    assert_eq!(
        EntryProps::from_json_str(r#"{"content": "c", "category": ["a", 1]}"#),
        Err(DecodeError::TypeMismatch)
    );
}

#[test]
fn props_content_coercion_errors_propagate() {
    assert_eq!(
        EntryProps::from_json_str(r#"{"content": [], "category": []}"#),
        Err(DecodeError::EmptySequence)
    );
    assert_eq!(
        EntryProps::from_json_str(r#"{"content": true, "category": []}"#),
        Err(DecodeError::TypeMismatch)
    );
}

#[test]
fn props_decode_from_constructed_value() {
    // The decoders work on JSON values directly, not only on text.
    let v = JsonValue::Obj(vec![
        ("content".to_owned(), JsonValue::Arr(vec![str_val("hand-built")])),
        ("category".to_owned(), JsonValue::Arr(vec![str_val("one"), str_val("two")])),
    ]);
    let props = EntryProps::from_json_value(&v).unwrap();
    assert_eq!(props.title, "");
    assert_eq!(props.content, "hand-built");
    assert_eq!(props.categories, vec!["one".to_owned(), "two".to_owned()]);
}

#[test]
fn lookup_finds_first_binding() {
    let fields = vec![
        ("a".to_owned(), str_val("first")),
        ("b".to_owned(), str_val("other")),
        ("a".to_owned(), str_val("second")),
    ];
    match lookup(&fields, "a") {
        Some(JsonValue::Str(s)) => assert_eq!(s, "first"),
        _ => panic!("expected the first binding of a"),
    }
    assert!(lookup(&fields, "c").is_none());
}
