//! Tool arguments from the command line.

use mcp_gateway::arguments::{require_object, tool_arguments, ArgumentsError, ParsedJson};

fn message(text: &str) -> String {
    match tool_arguments(text) {
        Err(error) => error.message(),
        Ok(_) => panic!("{} is accepted", text),
    }
}

#[test]
fn empty_text_gives_no_arguments() {
    assert!(matches!(tool_arguments(""), Ok(None)));
}

#[test]
fn object_gives_its_members() {
    let members = match tool_arguments(" {\"key\" : \"value\", \"n\": [1, null]} ") {
        Ok(Some(members)) => members,
        _ => panic!("an object is refused"),
    };
    assert_eq!(members.len(), 2);
    assert_eq!(members["key"], serde_json::Value::String("value".to_string()));
    assert_eq!(members["n"][0], serde_json::Value::from(1));
    assert!(members["n"][1].is_null());
    assert!(matches!(tool_arguments("{}"), Ok(Some(members)) if members.is_empty()));
}

#[test]
fn other_values_are_refused() {
    for text in ["null", "true", "1.5", "\"text\"", "[{}]"] {
        assert!(matches!(tool_arguments(text), Err(ArgumentsError::NotAnObject)), "{}", text);
        assert_eq!(
            message(text),
            "JSON arguments must be an object (e.g., {\"key\": \"value\"})"
        );
    }
}

#[test]
fn malformed_text_is_refused_with_the_reason() {
    let reason = serde_json::from_str::<serde_json::Value>("{\"key\": }")
        .unwrap_err()
        .to_string();
    assert_eq!(
        message("{\"key\": }"),
        format!("Failed to parse JSON arguments: {}", reason)
    );
    assert!(matches!(tool_arguments(" "), Err(ArgumentsError::Malformed(_))));
}

#[test]
fn only_an_object_will_do() {
    let mut members = serde_json::Map::new();
    members.insert("a".to_string(), serde_json::Value::Bool(true));
    assert_eq!(
        require_object(Ok(ParsedJson::Object(members.clone()))).ok(),
        Some(members)
    );
    for other in [
        ParsedJson::Null,
        ParsedJson::Bool,
        ParsedJson::Number,
        ParsedJson::Text,
        ParsedJson::Array,
    ] {
        assert!(matches!(require_object(Ok(other)), Err(ArgumentsError::NotAnObject)));
    }
    match require_object(Err("why".to_string())) {
        Err(error) => assert_eq!(error.message(), "Failed to parse JSON arguments: why"),
        Ok(_) => panic!("an error is accepted"),
    }
}
