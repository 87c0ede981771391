use schema_validator::{schema, value_eq, Num, Schema, Value};

struct TestUser {
    username: String,
    age: Num,
    is_active: bool,
}

impl TestUser {
    fn new(username: &str, age: Num, is_active: bool) -> Self {
        Self { username: username.to_string(), age, is_active }
    }
}

#[test]
fn test_string_validation() {
    let s = schema();
    let user = TestUser::new("user@example.com", Num::new(false, 25, 0), true);

    let result = s.string().validate(&Value::Str(user.username.clone())).unwrap();
    assert!(value_eq(&result, &Value::Str(user.username.clone())));

    // Invalid type
    assert!(s.string().validate(&Value::Num(user.age)).is_err());
}

#[test]
fn test_number_validation() {
    let s = schema();
    let user = TestUser::new("user@example.com", Num::new(false, 25, 0), true);

    let result = s.number().validate(&Value::Num(user.age)).unwrap();
    assert!(value_eq(&result, &Value::Num(user.age)));

    // Invalid type
    assert!(s.number().validate(&Value::Str(user.username.clone())).is_err());
}

#[test]
fn test_boolean_validation() {
    let s = schema();
    let user = TestUser::new("user@example.com", Num::new(false, 25, 0), true);

    let result = s.boolean().validate(&Value::Bool(user.is_active)).unwrap();
    assert!(value_eq(&result, &Value::Bool(user.is_active)));

    // Invalid type
    assert!(s.boolean().validate(&Value::Num(user.age)).is_err());
}
