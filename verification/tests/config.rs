use sshs::config::{decode_entries, parse_connections};
use sshs::entry::{connection_at, labels, ConnectionEntry};
use sshs::failure::Failure;
use sshs::json::{parse_document, Json, Member};

fn entry(name: &str, connection: &str) -> ConnectionEntry {
    ConnectionEntry { name: name.to_string(), connection: connection.to_string() }
}

fn text_member(key: &str, text: &str) -> Member {
    Member { key: key.to_string(), value: Json::Text(text.to_string()) }
}

#[test]
fn parses_entries_in_file_order() {
    let text = r#"[{"name":"A","connection":"a@1.2.3.4"},{"name":"B","connection":"b@5.6.7.8"}]"#;
    let entries = parse_connections(text).unwrap();
    assert_eq!(entries, vec![entry("A", "a@1.2.3.4"), entry("B", "b@5.6.7.8")]);
}

#[test]
fn parses_the_documented_example() {
    let text = r#"
[
  { "name": "home-server", "connection": "user@192.168.1.10" },
  { "name": "work-box", "connection": "myalias" }
]
"#;
    let entries = parse_connections(text).unwrap();
    assert_eq!(entries, vec![entry("home-server", "user@192.168.1.10"), entry("work-box", "myalias")]);
}

#[test]
fn member_order_within_an_entry_does_not_matter() {
    let text = r#"[{"connection":"root@box","name":"box"}]"#;
    assert_eq!(parse_connections(text), Ok(vec![entry("box", "root@box")]));
}

#[test]
fn empty_list_is_a_valid_configuration() {
    assert_eq!(parse_connections("[]"), Ok(vec![]));
    assert_eq!(parse_connections("  [ ]\n"), Ok(vec![]));
}

#[test]
fn missing_name_is_a_parse_error() {
    let text = r#"[{"name":"A","connection":"a"},{"connection":"b"}]"#;
    assert_eq!(parse_connections(text), Err(Failure::ParseError));
}

#[test]
fn missing_connection_is_a_parse_error() {
    let text = r#"[{"name":"A"},{"name":"B","connection":"b"}]"#;
    assert_eq!(parse_connections(text), Err(Failure::ParseError));
}

#[test]
fn field_of_the_wrong_type_is_a_parse_error() {
    assert_eq!(parse_connections(r#"[{"name":1,"connection":"a"}]"#), Err(Failure::ParseError));
    assert_eq!(parse_connections(r#"[{"name":"A","connection":null}]"#), Err(Failure::ParseError));
    assert_eq!(parse_connections(r#"[{"name":"A","connection":["a"]}]"#), Err(Failure::ParseError));
    assert_eq!(parse_connections(r#"[{"name":true,"connection":"a"}]"#), Err(Failure::ParseError));
    assert_eq!(parse_connections(r#"[{"name":{"name":"A"},"connection":"a"}]"#), Err(Failure::ParseError));
}

#[test]
fn document_that_is_no_list_is_a_parse_error() {
    assert_eq!(parse_connections(r#"{"name":"A","connection":"a"}"#), Err(Failure::ParseError));
    assert_eq!(parse_connections(r#""A""#), Err(Failure::ParseError));
    assert_eq!(parse_connections("null"), Err(Failure::ParseError));
    assert_eq!(parse_connections("7"), Err(Failure::ParseError));
}

#[test]
fn element_that_is_no_object_is_a_parse_error() {
    assert_eq!(parse_connections(r#"["A"]"#), Err(Failure::ParseError));
    assert_eq!(parse_connections(r#"[["A","a@host"]]"#), Err(Failure::ParseError));
    assert_eq!(parse_connections(r#"[{"name":"A","connection":"a"}, null]"#), Err(Failure::ParseError));
}

#[test]
fn text_that_is_no_json_is_a_parse_error() {
    assert_eq!(parse_connections(""), Err(Failure::ParseError));
    assert_eq!(parse_connections("["), Err(Failure::ParseError));
    assert_eq!(parse_connections(r#"[{"name":"A","connection":"a"},]"#), Err(Failure::ParseError));
    assert_eq!(parse_connections(r#"[{"name":"A" "connection":"a"}]"#), Err(Failure::ParseError));
    assert_eq!(parse_connections("[] []"), Err(Failure::ParseError));
    assert_eq!(parse_connections("not json"), Err(Failure::ParseError));
}

#[test]
fn other_members_are_passed_over() {
    let text = r#"[{"name":"A","weight":22,"connection":"a@host","tags":["x",{"y":null}]}]"#;
    assert_eq!(parse_connections(text), Ok(vec![entry("A", "a@host")]));
}

#[test]
fn names_and_connections_are_not_interpreted() {
    let text = r#"[{"name":"","connection":""},{"name":"dup","connection":"one"},{"name":"dup","connection":"t w o"}]"#;
    let entries = parse_connections(text).unwrap();
    assert_eq!(entries, vec![entry("", ""), entry("dup", "one"), entry("dup", "t w o")]);
}

#[test]
fn escapes_in_strings_are_resolved() {
    let text = r#"[{"name":"café \"x\"","connection":"a\\b\n"}]"#;
    assert_eq!(parse_connections(text), Ok(vec![entry("café \"x\"", "a\\b\n")]));
}

#[test]
fn written_entries_are_read_back() {
    let written = vec![entry("A", "a@1.2.3.4"), entry("B", "b@5.6.7.8"), entry("A", ""), entry("é\"\\", "x y")];
    let mut items = Vec::new();
    for e in &written {
        let mut object = serde_json::Map::new();
        object.insert("name".to_string(), serde_json::Value::String(e.name.clone()));
        object.insert("connection".to_string(), serde_json::Value::String(e.connection.clone()));
        items.push(serde_json::Value::Object(object));
    }
    let text = serde_json::to_string(&serde_json::Value::Array(items)).unwrap();
    assert_eq!(parse_connections(&text), Ok(written));
}

#[test]
fn written_shape_decodes_in_either_member_order() {
    let document = Json::Array(vec![
        Json::Object(vec![text_member("name", "A"), text_member("connection", "a")]),
        Json::Object(vec![text_member("connection", "b"), text_member("name", "B")]),
    ]);
    assert_eq!(decode_entries(&document), Ok(vec![entry("A", "a"), entry("B", "b")]));
}

#[test]
fn decoding_takes_the_first_member_under_a_key() {
    let twice = Json::Array(vec![Json::Object(vec![
        text_member("name", "first"),
        text_member("name", "second"),
        text_member("connection", "c"),
    ])]);
    assert_eq!(decode_entries(&twice), Ok(vec![entry("first", "c")]));
    let shadowed = Json::Array(vec![Json::Object(vec![
        Member { key: "name".to_string(), value: Json::Null },
        text_member("name", "late"),
        text_member("connection", "c"),
    ])]);
    assert_eq!(decode_entries(&shadowed), Err(Failure::ParseError));
}

#[test]
fn decoding_rejects_what_is_no_list_of_entries() {
    assert_eq!(decode_entries(&Json::Null), Err(Failure::ParseError));
    assert_eq!(decode_entries(&Json::Bool(true)), Err(Failure::ParseError));
    assert_eq!(decode_entries(&Json::Number("1".to_string())), Err(Failure::ParseError));
    assert_eq!(decode_entries(&Json::Text("[]".to_string())), Err(Failure::ParseError));
    assert_eq!(decode_entries(&Json::Object(vec![])), Err(Failure::ParseError));
    assert_eq!(decode_entries(&Json::Array(vec![Json::Object(vec![])])), Err(Failure::ParseError));
    assert_eq!(decode_entries(&Json::Array(vec![Json::Array(vec![])])), Err(Failure::ParseError));
    assert_eq!(decode_entries(&Json::Array(vec![])), Ok(vec![]));
}

#[test]
fn keys_are_matched_exactly() {
    let text = r#"[{"Name":"A","connection":"a"}]"#;
    assert_eq!(parse_connections(text), Err(Failure::ParseError));
    let text = r#"[{"name ":"A","connection":"a"}]"#;
    assert_eq!(parse_connections(text), Err(Failure::ParseError));
}

#[test]
fn document_is_read_as_a_tree() {
    let document = parse_document(r#"[null, true, 12, -3.5, "t", [], {"a": "x", "b": [false]}]"#).unwrap();
    let expected = Json::Array(vec![
        Json::Null,
        Json::Bool(true),
        Json::Number("12".to_string()),
        Json::Number("-3.5".to_string()),
        Json::Text("t".to_string()),
        Json::Array(vec![]),
        Json::Object(vec![
            Member { key: "a".to_string(), value: Json::Text("x".to_string()) },
            Member { key: "b".to_string(), value: Json::Array(vec![Json::Bool(false)]) },
        ]),
    ]);
    assert_eq!(document, expected);
}

#[test]
fn document_that_is_no_json_is_rejected() {
    assert_eq!(parse_document("{"), Err(Failure::ParseError));
    assert_eq!(parse_document("[1 2]"), Err(Failure::ParseError));
    assert_eq!(parse_document("\"open"), Err(Failure::ParseError));
    assert_eq!(parse_document("{} x"), Err(Failure::ParseError));
}

#[test]
fn repeated_key_in_a_text_leaves_one_member() {
    let document = parse_document(r#"{"name":"first","name":"second"}"#).unwrap();
    match document {
        Json::Object(members) => {
            assert_eq!(members.len(), 1);
            assert_eq!(members[0].key, "name");
        }
        other => panic!("not an object: {:?}", other),
    }
}

#[test]
fn labels_are_the_names_in_order() {
    let entries = vec![entry("A", "a@1.2.3.4"), entry("B", "b@5.6.7.8"), entry("A", "c")];
    assert_eq!(labels(&entries), vec!["A".to_string(), "B".to_string(), "A".to_string()]);
    assert_eq!(labels(&Vec::new()), Vec::<String>::new());
}

#[test]
fn labels_of_a_parsed_file_keep_count_and_order() {
    let text = r#"[{"name":"3","connection":"c"},{"name":"1","connection":"a"},{"name":"2","connection":"b"}]"#;
    let entries = parse_connections(text).unwrap();
    let shown = labels(&entries);
    assert_eq!(shown.len(), 3);
    assert_eq!(shown, vec!["3".to_string(), "1".to_string(), "2".to_string()]);
}

#[test]
fn connection_is_found_by_position() {
    let entries = vec![entry("same", "first"), entry("same", "second")];
    assert_eq!(connection_at(&entries, 0), Some("first".to_string()));
    assert_eq!(connection_at(&entries, 1), Some("second".to_string()));
    assert_eq!(connection_at(&entries, 2), None);
    assert_eq!(connection_at(&Vec::new(), 0), None);
}

#[test]
fn cloned_entry_equals_its_source() {
    let source = entry("A", "a@host");
    let copy = source.clone();
    assert_eq!(copy, source);
    assert_eq!(copy.name, "A");
    assert_eq!(copy.connection, "a@host");
}
