//! The document model and its emitter on concrete values.

use create_rzpack::json::{json_insert, json_merge, merge_json_objects, Json};

fn obj(entries: Vec<(&str, Json)>) -> Json {
    Json::Obj(entries.into_iter().map(|(k, v)| (k.to_string(), v)).collect())
}

fn s(t: &str) -> Json {
    Json::Str(t.to_string())
}

fn render(j: &Json) -> String {
    j.to_pretty_string()
}

#[test]
fn emits_scalars() {
    assert_eq!(render(&Json::Null), "null");
    assert_eq!(render(&Json::Bool(true)), "true");
    assert_eq!(render(&Json::Bool(false)), "false");
    assert_eq!(render(&Json::Num(0)), "0");
    assert_eq!(render(&Json::Num(100)), "100");
    assert_eq!(render(&Json::Num(18446744073709551615)), "18446744073709551615");
    assert_eq!(render(&s("hi")), "\"hi\"");
}

#[test]
fn emits_empty_collections() {
    assert_eq!(render(&Json::Arr(vec![])), "[]");
    assert_eq!(render(&Json::Obj(vec![])), "{}");
}

#[test]
fn emits_nested_object_with_indentation() {
    let j = obj(vec![
        ("name", s("demo")),
        ("flags", obj(vec![("a", Json::Bool(true))])),
        ("list", Json::Arr(vec![Json::Num(1), Json::Num(2)])),
    ]);
    let expected = "{\n  \"name\": \"demo\",\n  \"flags\": {\n    \"a\": true\n  },\n  \"list\": [\n    1,\n    2\n  ]\n}";
    assert_eq!(render(&j), expected);
}

#[test]
fn escapes_string_content() {
    let j = s("a\"b\\c\nd\te\r");
    assert_eq!(render(&j), "\"a\\\"b\\\\c\\nd\\te\\r\"");
    let ctl = s("\u{1}");
    assert_eq!(render(&ctl), "\"\\u0001\"");
    let ctl2 = s("\u{1f}");
    assert_eq!(render(&ctl2), "\"\\u001f\"");
}

#[test]
fn raw_nodes_emit_without_quotes() {
    let j = obj(vec![("jsxTools", Json::Raw("JSX_TOOLS.BABEL".to_string()))]);
    assert_eq!(render(&j), "{\n  \"jsxTools\": JSX_TOOLS.BABEL\n}");
}

#[test]
fn insert_appends_a_fresh_key() {
    let mut j = obj(vec![("a", Json::Num(1))]);
    json_insert(&mut j, "b", Json::Num(2));
    assert_eq!(render(&j), "{\n  \"a\": 1,\n  \"b\": 2\n}");
}

#[test]
fn insert_replaces_in_place() {
    let mut j = obj(vec![("a", Json::Num(1)), ("b", Json::Num(2))]);
    json_insert(&mut j, "a", Json::Num(9));
    assert_eq!(render(&j), "{\n  \"a\": 9,\n  \"b\": 2\n}");
}

#[test]
fn insert_leaves_non_objects_alone() {
    let mut j = Json::Num(7);
    json_insert(&mut j, "a", Json::Num(1));
    assert_eq!(render(&j), "7");
}

#[test]
fn merge_prefers_later_entries() {
    let a = obj(vec![("x", Json::Num(1)), ("y", Json::Num(2))]);
    let b = obj(vec![("y", Json::Num(9)), ("z", Json::Num(3))]);
    let m = json_merge(a, b);
    assert_eq!(render(&m), "{\n  \"x\": 1,\n  \"y\": 9,\n  \"z\": 3\n}");
}

#[test]
fn merge_of_non_objects_is_null() {
    let m = json_merge(Json::Num(1), obj(vec![]));
    assert_eq!(render(&m), "null");
}

#[test]
fn merge_json_objects_keeps_first_positions() {
    let base = vec![("a".to_string(), Json::Num(1)), ("b".to_string(), Json::Num(2))];
    let other = vec![("a".to_string(), Json::Num(5)), ("c".to_string(), Json::Num(3))];
    let merged = merge_json_objects(base, other);
    assert_eq!(
        render(&Json::Obj(merged)),
        "{\n  \"a\": 5,\n  \"b\": 2,\n  \"c\": 3\n}"
    );
}
