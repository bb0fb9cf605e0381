use libaegis::{frame, Json, Payload};

#[test]
fn fields_are_found_by_name() {
    let mut p = Payload::new();
    p.insert("a", Json::text("x"));
    p.insert("b", Json::Bool(true));
    p.insert("c", Json::Number(7));
    assert_eq!(p.get("a").and_then(|v| v.as_str()), Some("x"));
    assert_eq!(p.get("b").and_then(|v| v.as_bool()), Some(true));
    assert!(matches!(p.get("c"), Some(Json::Number(7))));
    assert!(p.get("d").is_none());
}

#[test]
fn a_later_value_replaces_an_earlier_one() {
    let mut p = Payload::new();
    p.insert("a", Json::text("old"));
    p.insert("b", Json::text("kept"));
    p.insert("a", Json::text("new"));
    assert_eq!(p.fields().len(), 2);
    assert_eq!(p.text_or("a", "-"), "new");
    assert_eq!(p.text_or("b", "-"), "kept");
}

#[test]
fn values_of_another_kind_count_as_missing() {
    let mut p = Payload::new();
    p.insert("t", Json::Number(1));
    p.insert("b", Json::text("true"));
    p.insert("l", Json::text("x"));
    assert_eq!(p.text_or("t", "fallback"), "fallback");
    assert!(!p.bool_or("b", false));
    assert!(p.bool_or("missing", true));
    assert!(p.texts("l").is_empty());
    assert!(p.texts("missing").is_empty());
}

#[test]
fn only_texts_are_taken_from_an_array() {
    let mut p = Payload::new();
    p.insert(
        "topics",
        Json::Array(vec![
            Json::text("a"),
            Json::Number(3),
            Json::text("b"),
            Json::Bool(false),
            Json::Array(vec![Json::text("nested")]),
            Json::Other(serde_json::Value::Null),
            Json::text(""),
        ]),
    );
    assert_eq!(p.texts("topics"), vec!["a", "b", ""]);
}

#[test]
fn arrays_of_texts_are_kept_whole() {
    let items = vec!["1m".to_string(), "5m".to_string()];
    let mut p = Payload::new();
    p.insert("tf", Json::text_array(&items));
    assert_eq!(p.texts("tf"), items);
    assert!(p.get("tf").unwrap().as_array().is_some());
    assert!(p.get("tf").unwrap().as_str().is_none());
}

#[test]
fn a_payload_becomes_an_object() {
    let mut p = Payload::new();
    p.insert("k", Json::text("v"));
    match p.into_object() {
        Json::Object(fields) => {
            assert_eq!(fields.len(), 1);
            assert_eq!(fields[0].0, "k");
            assert_eq!(fields[0].1.as_str(), Some("v"));
        }
        _ => panic!("not an object"),
    }
}

#[test]
fn frames_end_with_one_newline() {
    assert_eq!(frame("{}".to_string()), "{}\n");
    assert_eq!(frame(String::new()), "\n");
    let stream = format!("{}{}", frame("{\"a\":1}".to_string()), frame("{\"b\":2}".to_string()));
    let lines: Vec<&str> = stream.split('\n').collect();
    assert_eq!(lines, vec!["{\"a\":1}", "{\"b\":2}", ""]);
}
