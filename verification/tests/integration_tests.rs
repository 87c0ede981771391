use schema_validator::{schema, value_eq, Num, Schema, Transform, Value};

struct User {
    username: String,
    age: Num,
    is_active: bool,
}

#[test]
fn test_strict_validation() {
    let s = schema();

    let user = User {
        username: "user@example.com".to_string(),
        age: Num::new(false, 25, 0),
        is_active: true,
    };

    // Valid cases - correct types
    let validated_username = s.string().validate(&Value::Str(user.username.clone())).unwrap();
    assert!(value_eq(&validated_username, &Value::Str(user.username.clone())));

    let validated_age = s.number().validate(&Value::Num(user.age)).unwrap();
    assert!(value_eq(&validated_age, &Value::Num(user.age)));

    let validated_active = s.boolean().validate(&Value::Bool(user.is_active)).unwrap();
    assert!(value_eq(&validated_active, &Value::Bool(user.is_active)));

    // Invalid cases - wrong types with custom error messages
    let string_schema = s.string().set_message("INVALID_STRING", "Expected a string value");

    let err = string_schema.validate(&Value::Num(user.age)).unwrap_err();
    assert_eq!(err.code, "INVALID_STRING");
    assert_eq!(err.message, "Expected a string value");
}

#[test]
fn test_coercion() {
    let s = schema();

    // Test string coercion
    let age: i64 = 25;
    let coerced_age = s.coerce().string().validate(&Value::Int(age)).unwrap();
    assert!(matches!(coerced_age, Value::Str(ref t) if t == "25"));

    // Test number coercion with custom error
    let invalid_str = Value::Str("not a number".to_string());
    let number_schema = s.coerce().number().set_message(
        "INVALID_NUMBER",
        "Cannot convert string to number",
    );

    let err = number_schema.validate(&invalid_str).unwrap_err();
    assert_eq!(err.code, "INVALID_NUMBER");
    assert_eq!(err.message, "Cannot convert string to number");

    // Test boolean coercion
    let truthy_str = Value::Str("yes".to_string());
    let falsy_str = Value::Str("false".to_string());

    let coerced_true = s.coerce().boolean().validate(&truthy_str).unwrap();
    assert!(matches!(coerced_true, Value::Bool(true)));

    // Truthiness, not parsing: "false" is a non-empty string
    let coerced = s.coerce().boolean().validate(&falsy_str).unwrap();
    assert!(matches!(coerced, Value::Bool(true)));
}

#[test]
fn test_error_messages() {
    let s = schema();

    // Custom error message
    let string_schema = s.string().set_message("CUSTOM_ERROR", "Invalid value provided");
    let err = string_schema.validate(&Value::Num(Num::new(false, 42, 0))).unwrap_err();
    assert_eq!(err.code, "CUSTOM_ERROR");
    assert_eq!(err.message, "Invalid value provided");

    // Default error message for type error
    let default_schema = s.string();
    let err = default_schema.validate(&Value::Num(Num::new(false, 42, 0))).unwrap_err();
    assert_eq!(err.code, "TYPE_ERROR");
    assert!(err.message.contains("expected String"));

    // Default error message for coercion error
    let coerce_schema = s.coerce().number();
    let err = coerce_schema.validate(&Value::Str("invalid".to_string())).unwrap_err();
    assert_eq!(err.code, "COERCION_ERROR");
    assert!(err.message.contains("cannot convert String to Number"));

    // Custom error message applies to both type and coercion errors
    let custom_schema = s.coerce().number().set_message("INVALID", "Value is not valid");
    let err = custom_schema.validate(&Value::Str("invalid".to_string())).unwrap_err();
    assert_eq!(err.code, "INVALID");
    assert_eq!(err.message, "Value is not valid");
}

#[test]
fn test_transform() {
    let s = schema();

    // String transformation
    let string_schema = s.string().transform(Transform::Trim);
    let result = string_schema.validate(&Value::Str("  hello  ".to_string())).unwrap();
    assert!(matches!(result, Value::Str(ref t) if t == "hello"));

    // Number transformation
    let number_schema = s.number().transform(Transform::Round);
    let result = number_schema.validate(&Value::Num(Num::new(false, 37, 1))).unwrap();
    assert!(matches!(result, Value::Num(n) if n == Num::new(false, 4, 0)));

    // Boolean transformation
    let boolean_schema = s.boolean().transform(Transform::Not);
    let result = boolean_schema.validate(&Value::Bool(true)).unwrap();
    assert!(matches!(result, Value::Bool(false)));

    // Transformation with coercion
    let schema = s.coerce().string().transform(Transform::Uppercase);
    let result = schema.validate(&Value::Int(42)).unwrap();
    assert!(matches!(result, Value::Str(ref t) if t == "42"));

    // Multiple transformations
    let schema = s.string().transform(Transform::Trim).transform(Transform::Uppercase);
    let result = schema.validate(&Value::Str("  hello  ".to_string())).unwrap();
    assert!(matches!(result, Value::Str(ref t) if t == "HELLO"));
}
