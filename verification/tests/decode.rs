use telnyx::decode::{
    read_field, read_list, read_list_field, read_list_field_or_empty, read_optional_field, Decode,
};
use telnyx::json::Json;

fn parsed(text: &str) -> Json {
    Json::parse(text.as_bytes()).unwrap()
}

#[test]
fn string_decodes_from_a_string_only() {
    assert_eq!(String::decode(&parsed("\"abc\"")), Some("abc".to_string()));
    assert_eq!(String::decode(&parsed("\"\"")), Some(String::new()));
    assert_eq!(String::decode(&parsed("null")), None);
    assert_eq!(String::decode(&parsed("1")), None);
    assert_eq!(String::decode(&parsed("true")), None);
    assert_eq!(String::decode(&parsed("[\"a\"]")), None);
    assert_eq!(String::decode(&parsed("{}")), None);
}

#[test]
fn flag_decodes_from_a_boolean_only() {
    assert_eq!(bool::decode(&parsed("true")), Some(true));
    assert_eq!(bool::decode(&parsed("false")), Some(false));
    assert_eq!(bool::decode(&parsed("\"true\"")), None);
    assert_eq!(bool::decode(&parsed("1")), None);
    assert_eq!(bool::decode(&parsed("null")), None);
}

#[test]
fn count_decodes_from_an_unsigned_integer_only() {
    assert_eq!(usize::decode(&parsed("0")), Some(0));
    assert_eq!(usize::decode(&parsed("3")), Some(3));
    assert_eq!(usize::decode(&parsed("4294967295")), Some(4294967295));
    assert_eq!(usize::decode(&parsed("-1")), None);
    assert_eq!(usize::decode(&parsed("1.5")), None);
    assert_eq!(usize::decode(&parsed("3.0")), None);
    assert_eq!(usize::decode(&parsed("\"3\"")), None);
    assert_eq!(usize::decode(&parsed("null")), None);
    assert_eq!(usize::decode(&Json::Number(None)), None);
}

#[test]
fn count_that_does_not_fit_is_rejected() {
    let big = Json::Number(Some(u64::MAX));
    assert_eq!(usize::decode(&big), usize::try_from(u64::MAX).ok());
}

#[test]
fn field_has_to_be_there() {
    let json = parsed("{\"a\": \"x\", \"n\": null, \"i\": 1}");
    assert_eq!(read_field::<String>(&json, "a"), Some("x".to_string()));
    assert_eq!(read_field::<String>(&json, "b"), None);
    assert_eq!(read_field::<String>(&json, "n"), None);
    assert_eq!(read_field::<String>(&json, "i"), None);
    assert_eq!(read_field::<usize>(&json, "i"), Some(1));
}

#[test]
fn field_of_what_is_no_object_is_nothing() {
    assert_eq!(read_field::<String>(&parsed("[\"a\"]"), "a"), None);
    assert_eq!(read_field::<String>(&parsed("\"a\""), "a"), None);
}

#[test]
fn optional_field_may_be_missing_or_null() {
    let json = parsed("{\"a\": \"x\", \"n\": null, \"i\": 1}");
    assert_eq!(read_optional_field::<String>(&json, "a"), Some(Some("x".to_string())));
    assert_eq!(read_optional_field::<String>(&json, "b"), Some(None));
    assert_eq!(read_optional_field::<String>(&json, "n"), Some(None));
    assert_eq!(read_optional_field::<usize>(&json, "i"), Some(Some(1)));
}

#[test]
fn optional_field_of_the_wrong_type_fails() {
    let json = parsed("{\"a\": \"x\", \"i\": 1}");
    assert_eq!(read_optional_field::<String>(&json, "i"), None);
    assert_eq!(read_optional_field::<usize>(&json, "a"), None);
    assert_eq!(read_optional_field::<bool>(&json, "a"), None);
}

#[test]
fn list_decodes_every_item_in_order() {
    assert_eq!(
        read_list::<String>(&parsed("[\"c\", \"a\", \"b\", \"a\"]")),
        Some(vec!["c".to_string(), "a".to_string(), "b".to_string(), "a".to_string()])
    );
    assert_eq!(read_list::<usize>(&parsed("[3, 1, 2]")), Some(vec![3, 1, 2]));
    assert_eq!(read_list::<String>(&parsed("[]")), Some(vec![]));
}

#[test]
fn list_fails_on_one_bad_item() {
    assert_eq!(read_list::<String>(&parsed("[\"a\", 1, \"b\"]")), None);
    assert_eq!(read_list::<String>(&parsed("[\"a\", null]")), None);
    assert_eq!(read_list::<usize>(&parsed("[1, -1]")), None);
}

#[test]
fn list_of_what_is_no_array_is_nothing() {
    assert_eq!(read_list::<String>(&parsed("\"a\"")), None);
    assert_eq!(read_list::<String>(&parsed("null")), None);
    assert_eq!(read_list::<String>(&parsed("{\"0\": \"a\"}")), None);
}

#[test]
fn list_field_has_to_be_there() {
    let json = parsed("{\"l\": [\"a\"], \"n\": null}");
    assert_eq!(read_list_field::<String>(&json, "l"), Some(vec!["a".to_string()]));
    assert_eq!(read_list_field::<String>(&json, "m"), None);
    assert_eq!(read_list_field::<String>(&json, "n"), None);
}

#[test]
fn missing_list_field_is_empty() {
    let json = parsed("{\"l\": [\"a\"], \"n\": null, \"s\": \"x\"}");
    assert_eq!(read_list_field_or_empty::<String>(&json, "l"), Some(vec!["a".to_string()]));
    assert_eq!(read_list_field_or_empty::<String>(&json, "m"), Some(vec![]));
}

#[test]
fn null_in_place_of_a_list_fails() {
    let json = parsed("{\"n\": null, \"s\": \"x\"}");
    assert_eq!(read_list_field_or_empty::<String>(&json, "n"), None);
    assert_eq!(read_list_field_or_empty::<String>(&json, "s"), None);
}
