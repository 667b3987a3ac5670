use rustmcp::json::{render_json, JsonValue};

fn render(v: JsonValue) -> String {
    render_json(&v)
}

#[test]
fn renders_scalars() {
    assert_eq!(render(JsonValue::Null), "null");
    assert_eq!(render(JsonValue::Bool(true)), "true");
    assert_eq!(render(JsonValue::Bool(false)), "false");
    assert_eq!(render(JsonValue::Int(0)), "0");
    assert_eq!(render(JsonValue::Int(42)), "42");
    assert_eq!(render(JsonValue::Int(-7)), "-7");
    assert_eq!(render(JsonValue::Int(i64::MAX)), "9223372036854775807");
    assert_eq!(render(JsonValue::Int(i64::MIN)), "-9223372036854775808");
}

#[test]
fn renders_strings_with_escapes() {
    assert_eq!(render(JsonValue::Str("a".to_string())), "\"a\"");
    assert_eq!(render(JsonValue::Str(String::new())), "\"\"");
    assert_eq!(
        render(JsonValue::Str("say \"hi\"".to_string())),
        "\"say \\\"hi\\\"\""
    );
    assert_eq!(
        render(JsonValue::Str("back\\slash".to_string())),
        "\"back\\\\slash\""
    );
    assert_eq!(
        render(JsonValue::Str("line\nbreak\tand\rmore".to_string())),
        "\"line\\nbreak\\tand\\rmore\""
    );
    assert_eq!(
        render(JsonValue::Str("\u{8}\u{c}".to_string())),
        "\"\\b\\f\""
    );
    assert_eq!(
        render(JsonValue::Str("\u{1}\u{1f}".to_string())),
        "\"\\u0001\\u001f\""
    );
    assert_eq!(render(JsonValue::Str("héllo".to_string())), "\"héllo\"");
}

#[test]
fn renders_arrays_and_objects() {
    assert_eq!(render(JsonValue::Array(vec![])), "[]");
    assert_eq!(
        render(JsonValue::Array(vec![
            JsonValue::Int(1),
            JsonValue::Int(2),
            JsonValue::Int(3)
        ])),
        "[1,2,3]"
    );
    assert_eq!(render(JsonValue::Object(vec![])), "{}");
    let nested = JsonValue::Object(vec![
        ("a".to_string(), JsonValue::Int(1)),
        (
            "b".to_string(),
            JsonValue::Array(vec![JsonValue::Null, JsonValue::Bool(false)]),
        ),
        (
            "c".to_string(),
            JsonValue::Object(vec![("d".to_string(), JsonValue::Str("e".to_string()))]),
        ),
    ]);
    assert_eq!(render(nested), "{\"a\":1,\"b\":[null,false],\"c\":{\"d\":\"e\"}}");
}

#[test]
fn cloning_preserves_rendering() {
    let v = JsonValue::Object(vec![
        ("k".to_string(), JsonValue::Str("v\n".to_string())),
        ("l".to_string(), JsonValue::Array(vec![JsonValue::Int(-1)])),
    ]);
    let copy = v.clone();
    assert_eq!(render_json(&v), render_json(&copy));
}

#[test]
fn renders_number_text_verbatim() {
    assert_eq!(render(JsonValue::Num("1.5".to_string())), "1.5");
    assert_eq!(render(JsonValue::Num("-0.25".to_string())), "-0.25");
    assert_eq!(
        render(JsonValue::Num("18446744073709551615".to_string())),
        "18446744073709551615"
    );
    assert_eq!(
        render(JsonValue::Array(vec![
            JsonValue::Num("1e3".to_string()),
            JsonValue::Int(2)
        ])),
        "[1e3,2]"
    );
}
