use std::collections::HashMap;

use gouqi::builder::{SearchOptions, SearchOptionsBuilder};
use url::form_urlencoded;

fn expected_query(name: &str, value: &str) -> String {
    let mut expected: HashMap<&str, &str> = HashMap::new();
    expected.insert(name, value);
    form_urlencoded::Serializer::new(String::new())
        .extend_pairs(&expected)
        .finish()
}

#[test]
fn build_pattern_validate() {
    let options = SearchOptionsBuilder::new().validate(true).build();
    let options_str = options.serialize().unwrap();
    assert_eq!(options_str, expected_query("validateQuery", "true"));
}

#[test]
fn build_pattern_fields() {
    let options = SearchOptionsBuilder::new()
        .fields(vec!["field1".to_string(), "field2".to_string()])
        .build();
    let options_str = options.serialize().unwrap();
    assert_eq!(options_str, expected_query("fields", "field1,field2"));
}

#[test]
fn build_pattern_max_results() {
    let options = SearchOptionsBuilder::new().max_results(50).build();
    let options_str = options.serialize().unwrap();
    assert_eq!(options_str, expected_query("maxResults", "50"));
}

#[test]
fn build_pattern_start_at() {
    let options = SearchOptionsBuilder::new().start_at(10).build();
    let options_str = options.serialize().unwrap();
    assert_eq!(options_str, expected_query("startAt", "10"));
}

#[test]
fn build_pattern_type_name() {
    let options = SearchOptionsBuilder::new().type_filter("my_type").build();
    let options_str = options.serialize().unwrap();
    assert_eq!(options_str, expected_query("type", "my_type"));
}

#[test]
fn build_pattern_name() {
    let options = SearchOptionsBuilder::new().name("my_name").build();
    let options_str = options.serialize().unwrap();
    assert_eq!(options_str, expected_query("name", "my_name"));
}

#[test]
fn build_pattern_project_key_or_id() {
    let options = SearchOptionsBuilder::new().project_key_or_id("1234").build();
    let options_str = options.serialize().unwrap();
    assert_eq!(options_str, expected_query("projectKeyOrId", "1234"));
}

#[test]
fn build_pattern_expand() {
    let options = SearchOptionsBuilder::new()
        .expand(vec!["expand1".to_string(), "expand2".to_string()])
        .build();
    let options_str = options.serialize().unwrap();
    assert_eq!(options_str, expected_query("expand", "expand1,expand2"));
}

#[test]
fn build_pattern_state() {
    let options = SearchOptionsBuilder::new().state("my_state").build();
    let options_str = options.serialize().unwrap();
    assert_eq!(options_str, expected_query("state", "my_state"));
}

#[test]
fn build_pattern_jql() {
    let options = SearchOptionsBuilder::new().jql("project = '1234'").build();
    let options_str = options.serialize().unwrap();
    assert_eq!(options_str, expected_query("jql", "project = '1234'"));
}

#[test]
fn build_pattern_jalidate_query() {
    let options = SearchOptionsBuilder::new().validate_query(true).build();
    let options_str = options.serialize().unwrap();
    assert_eq!(options_str, expected_query("validateQuery", "true"));
}

#[test]
fn empty_options_serialize_to_none() {
    let options = SearchOptions::builder().build();
    assert!(options.serialize().is_none());
}

#[test]
fn serialize_holds_exactly_the_set_pairs() {
    let options = SearchOptions::builder()
        .jql("assignee=doug")
        .max_results(25)
        .build();
    let serialized = options.serialize().unwrap();
    let pairs: Vec<(String, String)> = form_urlencoded::parse(serialized.as_bytes())
        .into_owned()
        .collect();
    assert_eq!(pairs.len(), 2);
    assert!(pairs.contains(&("jql".to_string(), "assignee=doug".to_string())));
    assert!(pairs.contains(&("maxResults".to_string(), "25".to_string())));
}

#[test]
fn last_write_wins_per_name() {
    let options = SearchOptions::builder()
        .max_results(10)
        .max_results(50)
        .build();
    assert_eq!(options.serialize().unwrap(), expected_query("maxResults", "50"));
}

#[test]
fn derivation_keeps_caller_filters() {
    let base = SearchOptions::builder().jql("project = GOUQI").build();
    let derived = base.as_builder().max_results(50).start_at(50).build();
    let serialized = derived.serialize().unwrap();
    let pairs: Vec<(String, String)> = form_urlencoded::parse(serialized.as_bytes())
        .into_owned()
        .collect();
    assert_eq!(pairs.len(), 3);
    assert!(pairs.contains(&("jql".to_string(), "project = GOUQI".to_string())));
    assert!(pairs.contains(&("maxResults".to_string(), "50".to_string())));
    assert!(pairs.contains(&("startAt".to_string(), "50".to_string())));
}
