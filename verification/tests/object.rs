use schema_validator::{
    schema, ErrorType, FromFields, Num, Schema, ValidateAs, Value,
};

fn text(s: &str) -> Value {
    Value::Str(s.to_string())
}

fn present(v: Value) -> Value {
    Value::Present(Box::new(v))
}

fn num_to_f64(n: &Num) -> f64 {
    let magnitude = n.mant as f64 / 10f64.powi(n.scale as i32);
    if n.neg {
        -magnitude
    } else {
        magnitude
    }
}

// Finds the code of one field's error inside an aggregate's detail map.
fn detail_code(err: &schema_validator::ValidationError, field: &str) -> Option<String> {
    match &err.error_type {
        ErrorType::Object { errors } => errors
            .iter()
            .find(|(name, _)| name == field)
            .map(|(_, e)| e.code.clone()),
        _ => None,
    }
}

fn detail_message(err: &schema_validator::ValidationError, field: &str) -> Option<String> {
    match &err.error_type {
        ErrorType::Object { errors } => errors
            .iter()
            .find(|(name, _)| name == field)
            .map(|(_, e)| e.message.clone()),
        _ => None,
    }
}

#[derive(Debug, PartialEq, Clone)]
struct User {
    name: String,
    email: String,
    age: Option<f64>,
}

impl FromFields for User {
    fn from_fields(fields: &Vec<(String, Value)>) -> Option<Self> {
        let name = match schema_validator::map_get(fields, "name")? {
            Value::Str(s) => s.clone(),
            _ => return None,
        };
        let email = match schema_validator::map_get(fields, "email")? {
            Value::Str(s) => s.clone(),
            _ => return None,
        };
        let age = match schema_validator::map_get(fields, "age")? {
            Value::Absent => None,
            Value::Present(inner) => match inner.as_ref() {
                Value::Num(n) => Some(num_to_f64(n)),
                _ => return None,
            },
            Value::Num(n) => Some(num_to_f64(n)),
            _ => return None,
        };
        Some(User { name, email, age })
    }
}

#[test]
fn test_object_validation() {
    let s = schema();

    // Define schema
    let schema = s
        .object()
        .field("name", s.string().min_length(2))
        .field("email", s.string().email())
        .field("age", s.number().optional());

    // Valid object
    let obj = Value::Object(vec![
        ("name".to_string(), text("John")),
        ("email".to_string(), text("john@example.com")),
        ("age".to_string(), present(Value::Num(Num::new(false, 30, 0)))),
    ]);
    let user: User = schema.validate_as(&obj).unwrap();
    assert_eq!(user.name, "John");
    assert_eq!(user.email, "john@example.com");
    assert_eq!(user.age, Some(30.0));

    // Invalid name (too short)
    let obj = Value::Object(vec![
        ("name".to_string(), text("J")),
        ("email".to_string(), text("john@example.com")),
        ("age".to_string(), present(Value::Num(Num::new(false, 30, 0)))),
    ]);
    let err = schema.validate_as::<User>(&obj).unwrap_err();
    assert_eq!(err.code, "OBJECT_ERROR");
    assert!(err.message.contains("name"));
    assert_eq!(detail_code(&err, "name").unwrap(), "MIN_LENGTH_ERROR");

    // Invalid email
    let obj = Value::Object(vec![
        ("name".to_string(), text("John")),
        ("email".to_string(), text("not-an-email")),
        ("age".to_string(), present(Value::Num(Num::new(false, 30, 0)))),
    ]);
    let err = schema.validate_as::<User>(&obj).unwrap_err();
    assert_eq!(err.code, "OBJECT_ERROR");
    assert!(err.message.contains("email"));
    assert!(matches!(
        detail_code(&err, "email").as_deref(),
        Some("INVALID_EMAIL")
    ));
}

#[test]
fn test_object_custom_errors() {
    let s = schema();

    // Define schema with custom error messages
    let schema = s
        .object()
        .field(
            "name",
            s.string().min_length(2).set_message("INVALID_NAME", "Name must be at least 2 characters"),
        )
        .field(
            "email",
            s.string().email().set_message("INVALID_EMAIL", "Invalid email format"),
        )
        .field("age", s.number().optional());

    // Invalid name
    let obj = Value::Object(vec![
        ("name".to_string(), text("J")),
        ("email".to_string(), text("john@example.com")),
        ("age".to_string(), present(Value::Num(Num::new(false, 30, 0)))),
    ]);
    let err = schema.validate_as::<User>(&obj).unwrap_err();
    assert_eq!(err.code, "OBJECT_ERROR");
    assert_eq!(detail_code(&err, "name").unwrap(), "INVALID_NAME");
    assert!(err.message.contains("Name must be at least 2 characters"));

    // Invalid email
    let obj = Value::Object(vec![
        ("name".to_string(), text("John")),
        ("email".to_string(), text("not-an-email")),
        ("age".to_string(), present(Value::Num(Num::new(false, 30, 0)))),
    ]);
    let err = schema.validate_as::<User>(&obj).unwrap_err();
    assert_eq!(err.code, "OBJECT_ERROR");
    assert_eq!(detail_code(&err, "email").unwrap(), "INVALID_EMAIL");
    assert!(err.message.contains("Invalid email format"));
    assert!(detail_message(&err, "email").unwrap().contains("Invalid email format"));
}

#[test]
fn test_unknown_json() {
    let s = schema();

    // Define schema
    let schema = s
        .object()
        .field("name", s.string().min_length(2))
        .field("email", s.string().email())
        .field("age", s.number().optional());

    // Valid JSON-like document: numbers arrive as floats, null as absent
    let json = Value::Object(vec![
        ("name".to_string(), text("John")),
        ("email".to_string(), text("john@example.com")),
        ("age".to_string(), Value::Num(Num::new(false, 30, 0))),
    ]);

    let user: User = schema.validate_json_as(&json).unwrap();
    assert_eq!(user.name, "John");
    assert_eq!(user.email, "john@example.com");
    assert_eq!(user.age, Some(30.0));

    // Invalid JSON (wrong types)
    let json = Value::Object(vec![
        ("name".to_string(), Value::Num(Num::new(false, 42, 0))),
        ("email".to_string(), Value::Bool(true)),
        ("age".to_string(), text("not a number")),
    ]);

    let err = schema.validate_json_as::<User>(&json).unwrap_err();
    assert_eq!(err.code, "OBJECT_ERROR");
    assert!(err.message.contains("name"));
    assert!(err.message.contains("email"));
    assert!(err.message.contains("age"));
}

#[test]
fn test_unknown_json_with_coercion() {
    let s = schema();

    // Define schema with coercion
    let schema = s
        .object()
        .field("name", s.string().min_length(2))
        .field("email", s.string().email())
        .field("age", s.coerce().number().optional());

    // Document whose age is a string that coerces to a number
    let json = Value::Object(vec![
        ("name".to_string(), text("John")),
        ("email".to_string(), text("john@example.com")),
        ("age".to_string(), text("30")),
    ]);

    let user: User = schema.validate_json_as(&json).unwrap();
    assert_eq!(user.name, "John");
    assert_eq!(user.email, "john@example.com");
    assert_eq!(user.age, Some(30.0));

    // Invalid document: nested arrays and objects are rejected outright
    let json = Value::Object(vec![
        ("name".to_string(), Value::Array(Vec::new())),
        ("email".to_string(), Value::Object(Vec::new())),
        ("age".to_string(), text("not a number")),
    ]);

    let err = schema.validate_json_as::<User>(&json).unwrap_err();
    assert_eq!(err.code, "TYPE_ERROR");
    assert!(err.message.contains("expected String"));
    assert!(err.message.contains("got Array"));
}
