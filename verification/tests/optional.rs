use schema_validator::{
    schema, value_eq, FromFields, Num, Schema, Transform, ValidateAs, Value,
};

fn text(s: &str) -> Value {
    Value::Str(s.to_string())
}

fn present(v: Value) -> Value {
    Value::Present(Box::new(v))
}

fn num_to_f64(n: &Num) -> f64 {
    let magnitude = n.mant as f64 / 10f64.powi(n.scale as i32);
    if n.neg {
        -magnitude
    } else {
        magnitude
    }
}

#[test]
fn test_optional_string() {
    let s = schema();
    let schema = s.string().optional();

    // Valid values
    assert!(schema.validate(&present(text("hello"))).is_ok());
    assert!(schema.validate(&Value::Absent).is_ok());
    assert!(schema.validate(&text("hello")).is_ok());

    // Invalid values
    assert!(schema.validate(&Value::Int(42)).is_err());
    assert!(schema.validate(&Value::Bool(true)).is_err());
}

#[test]
fn test_optional_number() {
    let s = schema();
    let schema = s.number().optional();

    // Valid values
    assert!(schema.validate(&present(Value::Num(Num::new(false, 42, 0)))).is_ok());
    assert!(schema.validate(&Value::Absent).is_ok());
    assert!(schema.validate(&Value::Num(Num::new(false, 42, 0))).is_ok());

    // Invalid values
    assert!(schema.validate(&text("42")).is_err());
    assert!(schema.validate(&Value::Bool(true)).is_err());
}

#[test]
fn test_optional_boolean() {
    let s = schema();
    let schema = s.boolean().optional();

    // Valid values
    assert!(schema.validate(&present(Value::Bool(true))).is_ok());
    assert!(schema.validate(&Value::Absent).is_ok());
    assert!(schema.validate(&Value::Bool(false)).is_ok());

    // Invalid values
    assert!(schema.validate(&text("true")).is_err());
    assert!(schema.validate(&Value::Int(42)).is_err());
}

#[test]
fn test_optional_with_coercion() {
    let s = schema();

    // String coercion
    let schema = s.coerce().string().optional();
    let result = schema.validate(&Value::Int(42)).unwrap();
    assert!(value_eq(&result, &present(text("42"))));
    let result = schema.validate(&Value::Absent).unwrap();
    assert!(value_eq(&result, &Value::Absent));

    // Number coercion
    let schema = s.coerce().number().optional();
    let result = schema.validate(&text("42")).unwrap();
    assert!(value_eq(&result, &present(Value::Num(Num::new(false, 42, 0)))));
    let result = schema.validate(&Value::Absent).unwrap();
    assert!(value_eq(&result, &Value::Absent));

    // Boolean coercion
    let schema = s.coerce().boolean().optional();
    let result = schema.validate(&Value::Int(1)).unwrap();
    assert!(value_eq(&result, &present(Value::Bool(true))));
    let result = schema.validate(&Value::Absent).unwrap();
    assert!(value_eq(&result, &Value::Absent));
}

#[derive(Debug, PartialEq, Clone)]
struct User {
    name: String,
    age: Option<f64>,
    is_active: bool,
}

impl FromFields for User {
    fn from_fields(fields: &Vec<(String, Value)>) -> Option<Self> {
        let name = match schema_validator::map_get(fields, "name")? {
            Value::Str(s) => s.clone(),
            _ => return None,
        };
        let age = match schema_validator::map_get(fields, "age")? {
            Value::Absent => None,
            Value::Present(inner) => match inner.as_ref() {
                Value::Num(n) => Some(num_to_f64(n)),
                _ => return None,
            },
            Value::Num(n) => Some(num_to_f64(n)),
            _ => return None,
        };
        let is_active = match schema_validator::map_get(fields, "is_active")? {
            Value::Bool(b) => *b,
            _ => return None,
        };
        Some(User { name, age, is_active })
    }
}

#[test]
fn test_optional_object_field() {
    let s = schema();

    // Define schema with optional field
    let schema = s
        .object()
        .field("name", s.string())
        .field("age", s.number().optional())
        .field("is_active", s.boolean());

    // Object with all fields
    let obj = Value::Object(vec![
        ("name".to_string(), text("John")),
        ("age".to_string(), present(Value::Num(Num::new(false, 30, 0)))),
        ("is_active".to_string(), Value::Bool(true)),
    ]);

    let user: User = schema.validate_as(&obj).unwrap();
    assert_eq!(
        user,
        User { name: "John".to_string(), age: Some(30.0), is_active: true },
    );

    // Object with missing optional field
    let obj = Value::Object(vec![
        ("name".to_string(), text("John")),
        ("age".to_string(), Value::Absent),
        ("is_active".to_string(), Value::Bool(true)),
    ]);

    let user: User = schema.validate_as(&obj).unwrap();
    assert_eq!(user, User { name: "John".to_string(), age: None, is_active: true });

    // Missing required field should fail
    let obj = Value::Object(vec![
        ("name".to_string(), text("John")),
        ("age".to_string(), Value::Absent),
    ]);

    let result: Result<User, _> = schema.validate_as(&obj);
    assert!(result.is_err());
}

#[test]
fn test_optional_with_transform() {
    let s = schema();

    // Transform optional string to optional length
    let schema = s.string().optional().transform(Transform::Length);

    let result = schema.validate(&present(text("hello"))).unwrap();
    assert!(value_eq(&result, &present(Value::Int(5))));
    let result = schema.validate(&Value::Absent).unwrap();
    assert!(value_eq(&result, &Value::Absent));

    // Transform optional number to optional boolean
    let schema = s.number().optional().transform(Transform::Positive);

    let result = schema.validate(&present(Value::Num(Num::new(false, 42, 0)))).unwrap();
    assert!(value_eq(&result, &present(Value::Bool(true))));
    let result = schema.validate(&present(Value::Num(Num::new(true, 1, 0)))).unwrap();
    assert!(value_eq(&result, &present(Value::Bool(false))));
    let result = schema.validate(&Value::Absent).unwrap();
    assert!(value_eq(&result, &Value::Absent));
}
