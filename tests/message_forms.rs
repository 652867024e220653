use femtoclaw_protocol::{JsonValue, ProtocolOutput, ValidationError, Validator};

fn from_serde(v: serde_json::Value) -> JsonValue {
    match v {
        serde_json::Value::Null => JsonValue::Null,
        serde_json::Value::Bool(b) => JsonValue::Bool(b),
        serde_json::Value::Number(n) => JsonValue::Number(n.to_string()),
        serde_json::Value::String(s) => JsonValue::Str(s),
        serde_json::Value::Array(items) => JsonValue::Array(items.into_iter().map(from_serde).collect()),
        serde_json::Value::Object(map) => {
            JsonValue::Object(map.into_iter().map(|(k, v)| (k, from_serde(v))).collect())
        }
    }
}

fn parse(input: &str) -> Result<ProtocolOutput, ValidationError> {
    let parsed = serde_json::from_str::<serde_json::Value>(input).ok().map(from_serde);
    Validator::new().validate_parsed(parsed)
}

fn member<'a>(value: &'a JsonValue, key: &str) -> Option<&'a JsonValue> {
    match value {
        JsonValue::Object(members) => members.iter().find(|(k, _)| k == key).map(|(_, v)| v),
        _ => None,
    }
}

#[test]
fn test_parse_message_form() {
    let input = r#"{"message":{"content":"Hello, world"}}"#;
    let output = parse(input).unwrap();
    assert!(output.is_message());
    assert_eq!(output.into_message().unwrap(), "Hello, world");
}

#[test]
fn test_parse_tool_call_form() {
    let input = r#"{"tool_call":{"tool":"web.get","args":{"url":"https://example.com"}}}"#;
    let output = parse(input).unwrap();
    assert!(output.is_tool_call());
    let (tool, args) = output.into_tool_call().unwrap();
    assert_eq!(tool, "web.get");
    assert_eq!(member(&args, "url"), Some(&JsonValue::Str("https://example.com".to_string())));
}

#[test]
fn test_reject_both_forms() {
    let input = r#"{"message":{"content":"test"},"tool_call":{"tool":"test","args":{}}}"#;
    let result = parse(input);
    assert!(result.is_err());
}

#[test]
fn test_reject_invalid_json() {
    let input = "not valid json";
    let result = parse(input);
    assert!(result.is_err());
}

#[test]
fn parse_hello_world_gives_text_message() {
    let output = parse(r#"{"message":{"content":"Hello, world"}}"#).unwrap();
    assert!(!output.is_tool_call());
    assert_eq!(output.into_tool_call(), None);
    let output = parse(r#"{"message":{"content":"Hello, world"}}"#).unwrap();
    assert_eq!(output.into_message(), Some("Hello, world".to_string()));
}

#[test]
fn parse_web_get_gives_tool_invocation() {
    let output = parse(r#"{"tool_call":{"tool":"web.get","args":{"url":"https://example.com"}}}"#).unwrap();
    let (tool, args) = output.into_tool_call().unwrap();
    assert_eq!(tool, "web.get");
    assert_eq!(
        args,
        JsonValue::Object(vec![("url".to_string(), JsonValue::Str("https://example.com".to_string()))])
    );
}

#[test]
fn parse_both_forms_is_exclusivity_violation() {
    let result = parse(r#"{"message":{"content":"x"},"tool_call":{"tool":"x","args":{}}}"#);
    assert_eq!(result, Err(ValidationError::ExclusivityViolation { both: true }));
}

#[test]
fn parse_not_json_is_malformed_input() {
    assert_eq!(parse("not valid json"), Err(ValidationError::MalformedInput));
}

#[test]
fn parse_empty_message_is_missing_content() {
    let result = parse(r#"{"message":{}}"#);
    assert_eq!(result, Err(ValidationError::MissingField(femtoclaw_protocol::Field::MessageContent)));
    assert_eq!(femtoclaw_protocol::Field::MessageContent.path(), "message.content");
}

#[test]
fn parse_empty_tool_is_empty_value() {
    let result = parse(r#"{"tool_call":{"tool":"","args":{}}}"#);
    assert_eq!(result, Err(ValidationError::EmptyValue(femtoclaw_protocol::Field::ToolCallTool)));
    assert_eq!(femtoclaw_protocol::Field::ToolCallTool.path(), "tool_call.tool");
}

#[test]
fn parse_args_of_every_non_object_type_is_invalid_type() {
    for args in ["[]", "\"string\"", "42", "null", "true"] {
        let input = format!(r#"{{"tool_call":{{"tool":"t","args":{}}}}}"#, args);
        assert_eq!(
            parse(&input),
            Err(ValidationError::InvalidFieldType(femtoclaw_protocol::Field::ToolCallArgs)),
            "args {}",
            args
        );
    }
    assert!(parse(r#"{"tool_call":{"tool":"t","args":{}}}"#).is_ok());
}
