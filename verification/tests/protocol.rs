use nop_preprocessor::{check_configuration, check_document, check_table};
use serde_json::Value;

fn value(text: &str) -> Value {
    serde_json::from_str(text).unwrap()
}

#[test]
fn an_object_is_a_table() {
    assert!(check_table(&value("{}")));
    assert!(check_table(&value(r#"{"book":{"title":"Guide"}}"#)));
    assert!(check_table(&value(r#"{"title":"Guide"}"#)));
}

#[test]
fn what_is_no_object_is_no_table() {
    for text in ["null", "true", "0", "1.5", "\"text\"", "[]", "[{}]"] {
        assert!(!check_table(&value(text)), "{}", text);
    }
}

#[test]
fn an_object_that_starts_with_the_date_key_is_no_table() {
    assert!(!check_table(&value(r#"{"$__toml_private_datetime":"1979-05-27T07:32:00Z"}"#)));
    assert!(!check_table(&value(r#"{"$__toml_private_datetime":1}"#)));
    assert!(!check_table(&value(r#"{"book":{},"$__toml_private_datetime":"x"}"#)));
}

#[test]
fn the_date_key_counts_only_in_the_first_place() {
    assert!(check_table(&value(r#"{"!":1,"$__toml_private_datetime":"x"}"#)));
    assert!(check_table(&value(r#"{"$__toml_private_datetimes":"x"}"#)));
    assert!(check_table(&value(r#"{"book":{"$__toml_private_datetime":"1979-05-27T07:32:00Z"}}"#)));
}

#[test]
fn a_context_is_judged_by_its_configuration() {
    assert!(check_configuration(&value(r#"{"root":"/","config":{}}"#)));
    assert!(!check_configuration(&value(r#"{"root":"/","config":1}"#)));
    assert!(!check_configuration(&value(r#"{"config":[]}"#)));
    assert!(check_configuration(&value(r#"["/",{},"html","0.4.52"]"#)));
    assert!(!check_configuration(&value(r#"["/",1,"html","0.4.52"]"#)));
    assert!(!check_configuration(&value(r#"[{},"text"]"#)));
}

#[test]
fn a_context_without_a_configuration_passes() {
    assert!(check_configuration(&value("{}")));
    assert!(check_configuration(&value(r#"{"root":1}"#)));
    assert!(check_configuration(&value("[]")));
    assert!(check_configuration(&value("[1]")));
    assert!(check_configuration(&value("null")));
    assert!(check_configuration(&value("7")));
}

#[test]
fn a_document_is_judged_by_its_first_element() {
    assert!(check_document(&value(r#"[{"config":{}},{"config":1}]"#)));
    assert!(!check_document(&value(r#"[{"config":1},{"config":{}}]"#)));
    assert!(!check_document(&value(r#"[["/",true]]"#)));
    assert!(check_document(&value(r#"[["/",{}]]"#)));
}

#[test]
fn a_document_without_a_context_passes() {
    assert!(check_document(&value("[]")));
    assert!(check_document(&value("{}")));
    assert!(check_document(&value(r#"{"config":1}"#)));
    assert!(check_document(&value("null")));
    assert!(check_document(&value("[null]")));
}
