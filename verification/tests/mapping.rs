use schema_validator::{schema, FromFields, Num, Schema, ValidateAs, Value};

fn text(s: &str) -> Value {
    Value::Str(s.to_string())
}

fn present(v: Value) -> Value {
    Value::Present(Box::new(v))
}

fn num_to_f64(n: &Num) -> f64 {
    let magnitude = n.mant as f64 / 10f64.powi(n.scale as i32);
    if n.neg {
        -magnitude
    } else {
        magnitude
    }
}

#[derive(Debug, PartialEq, Clone)]
struct User {
    name: String,
    age: Option<f64>,
    is_active: bool,
}

impl FromFields for User {
    fn from_fields(fields: &Vec<(String, Value)>) -> Option<Self> {
        let name = match schema_validator::map_get(fields, "name")? {
            Value::Str(s) => s.clone(),
            _ => return None,
        };
        let age = match schema_validator::map_get(fields, "age")? {
            Value::Absent => None,
            Value::Present(inner) => match inner.as_ref() {
                Value::Num(n) => Some(num_to_f64(n)),
                _ => return None,
            },
            Value::Num(n) => Some(num_to_f64(n)),
            _ => return None,
        };
        let is_active = match schema_validator::map_get(fields, "is_active")? {
            Value::Bool(b) => *b,
            _ => return None,
        };
        Some(User { name, age, is_active })
    }
}

#[test]
fn test_validate_as() {
    let s = schema();

    let schema = s
        .object()
        .field("name", s.string())
        .field("age", s.number().optional())
        .field("is_active", s.boolean());

    // Valid object
    let obj = Value::Object(vec![
        ("name".to_string(), text("John")),
        ("age".to_string(), present(Value::Num(Num::new(false, 30, 0)))),
        ("is_active".to_string(), Value::Bool(true)),
    ]);

    let user: User = schema.validate_as(&obj).unwrap();
    assert_eq!(
        user,
        User { name: "John".to_string(), age: Some(30.0), is_active: true },
    );

    // Missing field
    let obj = Value::Object(vec![
        ("name".to_string(), text("John")),
        ("age".to_string(), present(Value::Num(Num::new(false, 30, 0)))),
    ]);

    let result = schema.validate(&obj);
    assert!(result.is_err());
    assert!(result.unwrap_err().message.contains("Missing required field"));

    let result: Result<User, _> = schema.validate_as(&obj);
    assert!(result.is_err());

    // Wrong type
    let obj = Value::Object(vec![
        ("name".to_string(), Value::Num(Num::new(false, 42, 0))),
        ("age".to_string(), present(Value::Num(Num::new(false, 30, 0)))),
        ("is_active".to_string(), Value::Bool(true)),
    ]);

    let result: Result<User, _> = schema.validate_as(&obj);
    assert!(result.is_err());
    assert!(result.unwrap_err().message.contains("Type error"));
}

#[derive(Debug, PartialEq, Clone)]
struct Point {
    x: f64,
    y: f64,
}

impl FromFields for Point {
    fn from_fields(fields: &Vec<(String, Value)>) -> Option<Self> {
        let x = match schema_validator::map_get(fields, "x")? {
            Value::Num(n) => num_to_f64(n),
            _ => return None,
        };
        let y = match schema_validator::map_get(fields, "y")? {
            Value::Num(n) => num_to_f64(n),
            _ => return None,
        };
        Some(Point { x, y })
    }
}

#[test]
fn test_validate_as_custom_error() {
    let s = schema();

    // Define schema with custom error
    let schema = s
        .object()
        .field("x", s.number())
        .field("y", s.number())
        .set_message("INVALID_POINT", "Invalid point coordinates");

    // Missing field
    let obj = Value::Object(vec![("x".to_string(), Value::Num(Num::new(false, 10, 0)))]);

    let result: Result<Point, _> = schema.validate_as(&obj);
    assert!(result.is_err());
    let err = result.unwrap_err();
    assert_eq!(err.code, "INVALID_POINT");
    assert_eq!(err.message, "Invalid point coordinates");
}
