use inference_relay::json::{json_to_string, Json};
use inference_relay::outside::json_parse;

fn obj(members: Vec<(&str, Json)>) -> Json {
    Json::Obj(members.into_iter().map(|(k, v)| (k.to_string(), v)).collect())
}

#[test]
fn serializes_flat_object() {
    let j = obj(vec![("generated_text", Json::Str("hi".to_string()))]);
    assert_eq!(json_to_string(&j), "{\"generated_text\":\"hi\"}");
}

#[test]
fn serializes_scalars_and_arrays() {
    let j = Json::Arr(vec![
        Json::Null,
        Json::Bool(true),
        Json::Bool(false),
        Json::Num("3.5".to_string()),
        Json::Str(String::new()),
    ]);
    assert_eq!(json_to_string(&j), "[null,true,false,3.5,\"\"]");
}

#[test]
fn serializes_nested_object() {
    let inner = obj(vec![
        ("question", Json::Str("q".to_string())),
        ("context", Json::Str("c".to_string())),
    ]);
    let j = obj(vec![("inputs", inner)]);
    assert_eq!(json_to_string(&j), "{\"inputs\":{\"question\":\"q\",\"context\":\"c\"}}");
}

#[test]
fn escapes_quotes_and_backslashes() {
    let j = Json::Str("a\"b\\c".to_string());
    assert_eq!(json_to_string(&j), "\"a\\\"b\\\\c\"");
}

#[test]
fn escapes_named_control_characters() {
    let j = Json::Str("\u{8}\t\n\u{c}\r".to_string());
    assert_eq!(json_to_string(&j), "\"\\b\\t\\n\\f\\r\"");
}

#[test]
fn escapes_other_control_characters_as_hex() {
    let j = Json::Str("\u{1}\u{1f}".to_string());
    assert_eq!(json_to_string(&j), "\"\\u0001\\u001f\"");
}

#[test]
fn parses_object_with_extra_member() {
    let parsed = json_parse("{\"message\":\"hi\",\"n\":5}");
    let expected = Json::Obj(vec![
        ("message".to_string(), Json::Str("hi".to_string())),
        ("n".to_string(), Json::Num("5".to_string())),
    ]);
    assert_eq!(parsed, Some(expected));
}

#[test]
fn parses_array_of_objects() {
    let parsed = json_parse("[{\"generated_text\": \"out\"}]");
    let expected = Json::Arr(vec![Json::Obj(vec![(
        "generated_text".to_string(),
        Json::Str("out".to_string()),
    )])]);
    assert_eq!(parsed, Some(expected));
}

#[test]
fn rejects_malformed_text() {
    assert_eq!(json_parse("{\"message\":"), None);
    assert_eq!(json_parse(""), None);
    assert_eq!(json_parse("{'message': 'hi'}"), None);
}

#[test]
fn parse_then_serialize_round_trips_unescaped_text() {
    let parsed = json_parse("{\"answer\":\"life is 42\"}").unwrap();
    assert_eq!(json_to_string(&parsed), "{\"answer\":\"life is 42\"}");
}
