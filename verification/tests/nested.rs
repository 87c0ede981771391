use schema_validator::{
    schema, value_eq, ErrorType, FromFields, Num, Schema, Value,
};

fn text(s: &str) -> Value {
    Value::Str(s.to_string())
}

// A nested object schema validates the inner mapping in place, and its
// aggregate error becomes the field's error in the outer detail.
#[test]
fn test_nested_object_field() {
    let s = schema();
    let address = s
        .object()
        .field("city", s.string().min_length(2))
        .field("zip", s.string());
    let person = s.object().field("name", s.string()).field("address", address);

    let good = Value::Object(vec![
        ("name".to_string(), text("John")),
        (
            "address".to_string(),
            Value::Object(vec![
                ("city".to_string(), text("Berlin")),
                ("zip".to_string(), text("10115")),
            ]),
        ),
    ]);
    let result = person.validate(&good).unwrap();
    assert!(value_eq(&result, &good));

    let bad = Value::Object(vec![
        ("name".to_string(), text("John")),
        (
            "address".to_string(),
            Value::Object(vec![
                ("city".to_string(), text("B")),
                ("zip".to_string(), text("10115")),
            ]),
        ),
    ]);
    let err = person.validate(&bad).unwrap_err();
    assert_eq!(err.code, "OBJECT_ERROR");
    match &err.error_type {
        ErrorType::Object { errors } => {
            assert_eq!(errors.len(), 1);
            assert_eq!(errors[0].0, "address");
            assert_eq!(errors[0].1.code, "OBJECT_ERROR");
            match &errors[0].1.error_type {
                ErrorType::Object { errors: inner } => {
                    assert_eq!(inner.len(), 1);
                    assert_eq!(inner[0].0, "city");
                    assert_eq!(inner[0].1.code, "MIN_LENGTH_ERROR");
                },
                _ => panic!("expected a nested aggregate"),
            }
        },
        _ => panic!("expected an aggregate error"),
    }
}

// An object schema can itself be optional: absent passes, a present
// mapping is validated.
#[test]
fn test_optional_object() {
    let s = schema();
    let inner = s.object().field("x", s.number());
    let opt = inner.optional();

    let result = opt.validate(&Value::Absent).unwrap();
    assert!(value_eq(&result, &Value::Absent));

    let mapping = Value::Object(vec![("x".to_string(), Value::Num(Num::new(false, 1, 0)))]);
    let result = opt.validate(&mapping).unwrap();
    assert!(value_eq(&result, &Value::Present(Box::new(mapping))));

    assert!(opt.validate(&text("no")).is_err());
}

#[derive(Debug, PartialEq, Clone)]
struct Point {
    x: i64,
    y: i64,
}

impl FromFields for Point {
    fn from_fields(fields: &Vec<(String, Value)>) -> Option<Self> {
        let x = match schema_validator::map_get(fields, "x")? {
            Value::Int(i) => *i,
            _ => return None,
        };
        let y = match schema_validator::map_get(fields, "y")? {
            Value::Int(i) => *i,
            _ => return None,
        };
        Some(Point { x, y })
    }
}

// The transformed object schema hands its validated mapping to the
// external assembler and reports a structural type error when the
// assembler refuses.
#[test]
fn test_transformed_object_schema() {
    let s = schema();
    let schema = s
        .object()
        .field("x", s.literal(Value::Int(1)))
        .field("y", s.literal(Value::Int(2)))
        .transform::<Point>();

    let good = Value::Object(vec![
        ("x".to_string(), Value::Int(1)),
        ("y".to_string(), Value::Int(2)),
    ]);
    let point = schema.validate(&good).unwrap();
    assert_eq!(point, Point { x: 1, y: 2 });

    let bad = Value::Object(vec![
        ("x".to_string(), Value::Int(1)),
        ("y".to_string(), Value::Int(3)),
    ]);
    let err = schema.validate(&bad).unwrap_err();
    assert_eq!(err.code, "OBJECT_ERROR");
}

// Re-declaring a field replaces the earlier schema of that name.
#[test]
fn test_field_replacement() {
    let s = schema();
    let schema = s
        .object()
        .field("v", s.string())
        .field("v", s.number());

    let as_number = Value::Object(vec![("v".to_string(), Value::Num(Num::new(false, 1, 0)))]);
    assert!(schema.validate(&as_number).is_ok());

    let as_text = Value::Object(vec![("v".to_string(), text("one"))]);
    let err = schema.validate(&as_text).unwrap_err();
    match &err.error_type {
        ErrorType::Object { errors } => {
            assert_eq!(errors.len(), 1);
            assert_eq!(errors[0].1.code, "TYPE_ERROR");
        },
        _ => panic!("expected an aggregate error"),
    }
}
