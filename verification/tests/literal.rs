use schema_validator::{schema, Schema, Value};

#[test]
fn test_string_literal() {
    let s = schema();

    // Basic validation
    let schema = s.literal(Value::Str("tuna".to_string()));
    assert!(schema.validate(&Value::Str("tuna".to_string())).is_ok());
    assert!(schema.validate(&Value::Str("salmon".to_string())).is_err());

    // Custom error message
    let schema = s.literal(Value::Str("tuna".to_string())).set_message(
        "INVALID_FISH",
        "Only tuna is allowed",
    );

    let err = schema.validate(&Value::Str("salmon".to_string())).unwrap_err();
    assert_eq!(err.code, "INVALID_FISH");
    assert_eq!(err.message, "Only tuna is allowed");

    // Type error
    let err = schema.validate(&Value::Int(42)).unwrap_err();
    assert_eq!(err.code, "INVALID_FISH");
    assert!(err.message.contains("Only tuna is allowed"));
}

#[test]
fn test_number_literal() {
    let s = schema();

    // Basic validation
    let schema = s.literal(Value::Int(42));
    assert!(schema.validate(&Value::Int(42)).is_ok());
    assert!(schema.validate(&Value::Int(43)).is_err());

    // Custom error message
    let schema = s.literal(Value::Int(42)).set_message("INVALID_NUMBER", "Value must be 42");

    let err = schema.validate(&Value::Int(43)).unwrap_err();
    assert_eq!(err.code, "INVALID_NUMBER");
    assert_eq!(err.message, "Value must be 42");

    // Type error
    let err = schema.validate(&Value::Str("42".to_string())).unwrap_err();
    assert_eq!(err.code, "INVALID_NUMBER");
    assert!(err.message.contains("Value must be 42"));
}

#[test]
fn test_boolean_literal() {
    let s = schema();

    // Basic validation
    let schema = s.literal(Value::Bool(true));
    assert!(schema.validate(&Value::Bool(true)).is_ok());
    assert!(schema.validate(&Value::Bool(false)).is_err());

    // Custom error message
    let schema = s.literal(Value::Bool(true)).set_message("INVALID_BOOL", "Value must be true");

    let err = schema.validate(&Value::Bool(false)).unwrap_err();
    assert_eq!(err.code, "INVALID_BOOL");
    assert_eq!(err.message, "Value must be true");

    // Type error
    let err = schema.validate(&Value::Str("true".to_string())).unwrap_err();
    assert_eq!(err.code, "INVALID_BOOL");
    assert!(err.message.contains("Value must be true"));
}

#[test]
fn test_literal_error_messages() {
    let s = schema();

    // Default error messages
    let schema = s.literal(Value::Str("tuna".to_string()));
    let err = schema.validate(&Value::Str("salmon".to_string())).unwrap_err();
    assert_eq!(err.code, "LITERAL_ERROR");
    assert!(err.message.contains("expected \"tuna\""));
    assert!(err.message.contains("got \"salmon\""));

    let schema = s.literal(Value::Int(42));
    let err = schema.validate(&Value::Int(43)).unwrap_err();
    assert_eq!(err.code, "LITERAL_ERROR");
    assert!(err.message.contains("expected 42"));
    assert!(err.message.contains("got 43"));

    let schema = s.literal(Value::Bool(true));
    let err = schema.validate(&Value::Bool(false)).unwrap_err();
    assert_eq!(err.code, "LITERAL_ERROR");
    assert!(err.message.contains("expected true"));
    assert!(err.message.contains("got false"));
}
