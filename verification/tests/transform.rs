use schema_validator::{schema, Num, Schema, Transform, Value};

#[test]
fn test_string_transform() {
    let s = schema();

    // Single transformation
    let schema = s.string().transform(Transform::Trim);
    let result = schema.validate(&Value::Str("  hello  ".to_string())).unwrap();
    assert!(matches!(result, Value::Str(ref t) if t == "hello"));

    // Multiple transformations
    let schema = s.string().transform(Transform::Trim).transform(Transform::Uppercase);
    let result = schema.validate(&Value::Str("  hello  ".to_string())).unwrap();
    assert!(matches!(result, Value::Str(ref t) if t == "HELLO"));

    // Transform with coercion
    let schema = s.coerce().string().transform(Transform::Uppercase);
    let result = schema.validate(&Value::Int(42)).unwrap();
    assert!(matches!(result, Value::Str(ref t) if t == "42"));
}

#[test]
fn test_number_transform() {
    let s = schema();

    // Round numbers
    let schema = s.number().transform(Transform::Round);
    let result = schema.validate(&Value::Num(Num::new(false, 37, 1))).unwrap();
    assert!(matches!(result, Value::Num(n) if n == Num::new(false, 4, 0)));

    // Multiple transformations
    let schema = s.number().transform(Transform::Double).transform(Transform::Round);
    let result = schema.validate(&Value::Num(Num::new(false, 37, 1))).unwrap();
    // 3.7 doubled is 7.4, rounded to 7
    assert!(matches!(result, Value::Num(n) if n == Num::new(false, 7, 0)));
}

#[test]
fn test_boolean_transform() {
    let s = schema();

    // Invert boolean
    let schema = s.boolean().transform(Transform::Not);
    let result = schema.validate(&Value::Bool(true)).unwrap();
    assert!(matches!(result, Value::Bool(false)));

    // Multiple transformations
    let schema = s.boolean().transform(Transform::Not).transform(Transform::Not);
    let result = schema.validate(&Value::Bool(true)).unwrap();
    assert!(matches!(result, Value::Bool(true)));
}
