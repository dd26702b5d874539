use hypr_utils::json::{to_text, Json};

fn s(text: &str) -> String {
    text.to_string()
}

#[test]
fn scalars_serialize_exactly() {
    assert_eq!(to_text(&Json::Null), "null");
    assert_eq!(to_text(&Json::Bool(true)), "true");
    assert_eq!(to_text(&Json::Bool(false)), "false");
    assert_eq!(to_text(&Json::Num(s("123"))), "123");
    assert_eq!(to_text(&Json::Num(s("-4.5"))), "-4.5");
    assert_eq!(to_text(&Json::Str(s("hello"))), "\"hello\"");
}

#[test]
fn strings_escape_as_json() {
    assert_eq!(to_text(&Json::Str(s("a\"b"))), "\"a\\\"b\"");
    assert_eq!(to_text(&Json::Str(s("a\\b"))), "\"a\\\\b\"");
    assert_eq!(to_text(&Json::Str(s("line\nbreak"))), "\"line\\nbreak\"");
    assert_eq!(to_text(&Json::Str(s("\r\t\u{8}\u{c}"))), "\"\\r\\t\\b\\f\"");
    assert_eq!(to_text(&Json::Str(s("\u{1}"))), "\"\\u0001\"");
    assert_eq!(to_text(&Json::Str(s("\u{1f}"))), "\"\\u001f\"");
    assert_eq!(to_text(&Json::Str(s("déjà"))), "\"déjà\"");
}

#[test]
fn arrays_and_objects_serialize_exactly() {
    assert_eq!(to_text(&Json::Arr(vec![])), "[]");
    let arr = Json::Arr(vec![Json::Num(s("1")), Json::Bool(true), Json::Str(s("hello"))]);
    assert_eq!(to_text(&arr), "[1,true,\"hello\"]");
    let obj = Json::Obj(vec![(s("bar"), Json::Num(s("123")))]);
    assert_eq!(to_text(&obj), "{\"bar\":123}");
    let nested = Json::Obj(vec![
        (s("a"), Json::Arr(vec![Json::Null])),
        (s("b"), Json::Obj(vec![])),
    ]);
    assert_eq!(to_text(&nested), "{\"a\":[null],\"b\":{}}");
}
