use elastic_ermine::json::{json_to_bytes, lookup, Json};
use elastic_ermine::parse::{parse_json, parse_optional_body};

fn text_of(j: &Json) -> String {
    String::from_utf8(json_to_bytes(j)).unwrap()
}

#[test]
fn parses_scalars_and_structure() {
    let j = parse_json(r#"{"a":1,"b":[true,null,"x"]}"#).unwrap();
    match &j {
        Json::Obj(fields) => {
            match lookup(fields, "a") {
                Some(Json::Num(n)) => assert_eq!(n, "1"),
                other => panic!("unexpected value for a: {:?}", other),
            }
            match lookup(fields, "b") {
                Some(Json::Arr(items)) => {
                    assert_eq!(items.len(), 3);
                    assert!(matches!(items[0], Json::Bool(true)));
                    assert!(matches!(items[1], Json::Null));
                    match &items[2] {
                        Json::Str(s) => assert_eq!(s, "x"),
                        other => panic!("unexpected value: {:?}", other),
                    }
                }
                other => panic!("unexpected value for b: {:?}", other),
            }
        }
        other => panic!("expected an object, got {:?}", other),
    }
}

#[test]
fn rejects_invalid_json() {
    let e = parse_json("{\"a\":").unwrap_err();
    assert_eq!(e.message, "invalid json");
    assert_eq!(e.causes.len(), 1);
}

#[test]
fn serializes_each_shape() {
    assert_eq!(text_of(&Json::Null), "null");
    assert_eq!(text_of(&Json::Bool(true)), "true");
    assert_eq!(text_of(&Json::Bool(false)), "false");
    assert_eq!(text_of(&Json::Num("42".to_owned())), "42");
    assert_eq!(text_of(&Json::Str("hi".to_owned())), "\"hi\"");
    let arr = Json::Arr(vec![Json::Num("1".to_owned()), Json::Null]);
    assert_eq!(text_of(&arr), "[1,null]");
    let obj = Json::Obj(vec![
        ("query".to_owned(), Json::Obj(vec![("match_all".to_owned(), Json::Obj(vec![]))])),
    ]);
    assert_eq!(text_of(&obj), r#"{"query":{"match_all":{}}}"#);
}

#[test]
fn serializes_escapes() {
    let s = Json::Str("a\"b\\c\nd\te\r\x08\x0c\x01".to_owned());
    assert_eq!(text_of(&s), "\"a\\\"b\\\\c\\nd\\te\\r\\b\\f\\u0001\"");
}

#[test]
fn serialized_text_parses_back() {
    let original = r#"{"filters":[{"term":{"user":"ann"}},42,null,true],"note":"a\nb"}"#;
    let once = parse_json(original).unwrap();
    let text = text_of(&once);
    let twice = parse_json(&text).unwrap();
    assert_eq!(text_of(&twice), text);
}

#[test]
fn optional_body_empty_is_absent() {
    assert!(parse_optional_body("").unwrap().is_none());
    assert!(parse_optional_body("{}").unwrap().is_some());
    assert!(parse_optional_body("{").is_err());
}
