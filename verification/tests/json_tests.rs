use emqxctl::json::{extract, extract_items, object_set, to_compact_json, value_to_string, JsonValue};

fn s(x: &str) -> JsonValue {
    JsonValue::Str(x.to_string())
}

fn n(x: &str) -> JsonValue {
    JsonValue::Number(x.to_string())
}

fn obj(members: Vec<(&str, JsonValue)>) -> JsonValue {
    let mut es = Vec::new();
    for (k, v) in members {
        object_set(&mut es, k.to_string(), v);
    }
    JsonValue::Object(es)
}

#[test]
fn extract_follows_dotted_paths() {
    let v = obj(vec![
        ("node", s("emqx@127.0.0.1")),
        ("stats", obj(vec![("connections", n("12"))])),
        ("listeners", JsonValue::Array(vec![s("tcp"), s("ssl")])),
    ]);
    assert_eq!(extract(&v, "node"), "emqx@127.0.0.1");
    assert_eq!(extract(&v, "stats.connections"), "12");
    assert_eq!(extract(&v, "listeners.1"), "ssl");
    assert_eq!(extract(&v, "listeners.5"), "");
    assert_eq!(extract(&v, "listeners.x"), "");
    assert_eq!(extract(&v, "missing"), "");
    assert_eq!(extract(&v, "node.deeper"), "");
}

#[test]
fn values_as_cell_text() {
    assert_eq!(value_to_string(&JsonValue::Null), "");
    assert_eq!(value_to_string(&JsonValue::Bool(true)), "true");
    assert_eq!(value_to_string(&n("3.5")), "3.5");
    assert_eq!(value_to_string(&s("x")), "x");
    assert_eq!(value_to_string(&JsonValue::Array(vec![n("1"), s("a"), JsonValue::Null])), "1, a, ");
    let o = obj(vec![("b", n("2")), ("a", s("q\"t"))]);
    assert_eq!(value_to_string(&o), "{\"a\":\"q\\\"t\",\"b\":2}");
}

#[test]
fn compact_json_quotes_strings() {
    assert_eq!(to_compact_json(&s("a\"b")), "\"a\\\"b\"");
    assert_eq!(to_compact_json(&JsonValue::Array(vec![JsonValue::Bool(false), JsonValue::Null])), "[false,null]");
    assert_eq!(to_compact_json(&obj(vec![])), "{}");
}

#[test]
fn object_members_stay_sorted_and_unique() {
    let o = obj(vec![("type", s("clientid")), ("name", s("t1")), ("clientid", s("c1")), ("name", s("t2"))]);
    match o {
        JsonValue::Object(es) => {
            let keys: Vec<&str> = es.iter().map(|(k, _)| k.as_str()).collect();
            assert_eq!(keys, vec!["clientid", "name", "type"]);
            assert_eq!(es[1].1, s("t2"));
        }
        _ => panic!("not an object"),
    }
}

#[test]
fn list_items_from_arrays_and_envelopes() {
    let arr = JsonValue::Array(vec![n("1"), n("2")]);
    assert_eq!(extract_items(&arr), vec![n("1"), n("2")]);
    let env = obj(vec![("data", JsonValue::Array(vec![s("a")])), ("meta", obj(vec![]))]);
    assert_eq!(extract_items(&env), vec![s("a")]);
    let single = obj(vec![("x", n("1"))]);
    assert_eq!(extract_items(&single), vec![obj(vec![("x", n("1"))])]);
    let bad_data = obj(vec![("data", s("nope"))]);
    assert_eq!(extract_items(&bad_data), vec![obj(vec![("data", s("nope"))])]);
}

#[test]
fn string_literals_escape_as_serde_does() {
    assert_eq!(to_compact_json(&s("a\u{1}\n\t\u{8}\u{c}\r\\\u{1f}")), "\"a\\u0001\\n\\t\\b\\f\\r\\\\\\u001f\"");
    assert_eq!(to_compact_json(&s("\u{7f}é/")), "\"\u{7f}é/\"");
}
