use schema_validator::{
    schema, value_eq, ErrorType, Num, Pattern, Schema, Transform, Value,
};

fn text(s: &str) -> Value {
    Value::Str(s.to_string())
}

// String schema with length bounds and a pattern: too-short input reports
// the minimum length, too-long input the maximum length, a mismatch the
// pattern, and fitting input passes unchanged.
#[test]
fn test_scenario_string_constraints() {
    let s = schema();
    let schema = s.string().min_length(3).max_length(10).pattern(r"^[a-z]+$");

    let err = schema.validate(&text("ab")).unwrap_err();
    assert_eq!(err.code, "MIN_LENGTH_ERROR");
    assert_eq!(err.message, "Length error: expected at least 3 characters, got 2");

    let err = schema.validate(&text("ABCDEFGHIJK")).unwrap_err();
    assert_eq!(err.code, "MAX_LENGTH_ERROR");
    assert_eq!(err.message, "Length error: expected at most 10 characters, got 11");

    let err = schema.validate(&text("abc123")).unwrap_err();
    assert_eq!(err.code, "PATTERN_ERROR");
    assert_eq!(
        err.message,
        "Pattern error: 'abc123' does not match pattern '^[a-z]+$'"
    );

    let result = schema.validate(&text("hello")).unwrap();
    assert!(value_eq(&result, &text("hello")));
}

// Coercion-enabled number schema: numeric text converts, other text is a
// coercion error, and a boolean becomes one.
#[test]
fn test_scenario_number_coercion() {
    let s = schema();
    let schema = s.coerce().number();

    let result = schema.validate(&text("42")).unwrap();
    assert!(value_eq(&result, &Value::Num(Num::new(false, 42, 0))));

    let err = schema.validate(&text("abc")).unwrap_err();
    assert_eq!(err.code, "COERCION_ERROR");
    assert_eq!(err.message, "Coercion error: cannot convert String to Number");

    let result = schema.validate(&Value::Bool(true)).unwrap();
    assert!(value_eq(&result, &Value::Num(Num::new(false, 1, 0))));
}

// Object schema with a required and an optional field: an optional field
// missing from the mapping is valid and validates to the absent state,
// while the empty mapping reports exactly the required field.
#[test]
fn test_scenario_optional_field() {
    let s = schema();
    let schema = s
        .object()
        .field("name", s.string())
        .field("age", s.number().optional());

    // age wholly missing from the input: valid, kept absent
    let obj = Value::Object(vec![("name".to_string(), text("Jo"))]);
    let result = schema.validate(&obj).unwrap();
    let expected = Value::Object(vec![
        ("name".to_string(), text("Jo")),
        ("age".to_string(), Value::Absent),
    ]);
    assert!(value_eq(&result, &expected));

    // age present as an explicitly absent value: the same outcome
    let obj = Value::Object(vec![
        ("name".to_string(), text("Jo")),
        ("age".to_string(), Value::Absent),
    ]);
    let result = schema.validate(&obj).unwrap();
    assert!(value_eq(&result, &expected));

    // the empty mapping fails on the required field alone
    let obj = Value::Object(Vec::new());
    let err = schema.validate(&obj).unwrap_err();
    assert_eq!(err.code, "OBJECT_ERROR");
    match &err.error_type {
        ErrorType::Object { errors } => {
            assert_eq!(errors.len(), 1);
            assert_eq!(errors[0].0, "name");
            assert_eq!(errors[0].1.code, "MISSING_FIELD");
        },
        _ => panic!("expected an aggregate error"),
    }
}

// A coercing object steers each raw field value toward its child schema's
// primitive type before the child judges it, even when the child itself
// does not coerce; a child without an inferable target gets the raw value.
#[test]
fn test_object_per_field_coercion() {
    let s = schema();
    let coercing = s
        .coerce()
        .object()
        .field("age", s.number())
        .field("label", s.string())
        .field("flag", s.boolean());

    let obj = Value::Object(vec![
        ("age".to_string(), text("30")),
        ("label".to_string(), Value::Int(7)),
        ("flag".to_string(), text("yes")),
    ]);
    let result = coercing.validate(&obj).unwrap();
    let expected = Value::Object(vec![
        ("age".to_string(), Value::Num(Num::new(false, 30, 0))),
        ("label".to_string(), text("7")),
        ("flag".to_string(), Value::Bool(true)),
    ]);
    assert!(value_eq(&result, &expected));

    // The plain factory's object leaves the raw values to the children,
    // which here do not coerce
    let strict = s
        .object()
        .field("age", s.number())
        .field("label", s.string())
        .field("flag", s.boolean());
    assert!(strict.validate(&obj).is_err());

    // No inferable target: a literal child receives the raw value
    let lit = s.coerce().object().field("answer", s.literal(Value::Int(42)));
    let obj = Value::Object(vec![("answer".to_string(), Value::Int(42))]);
    assert!(lit.validate(&obj).is_ok());
    let obj = Value::Object(vec![("answer".to_string(), text("42"))]);
    assert!(lit.validate(&obj).is_err());
}

// The optional transform step receives the whole outcome: the presence
// test turns it into a boolean on both sides of the disjunction.
#[test]
fn test_optional_presence_step() {
    let s = schema();
    let schema = s.string().optional().transform(Transform::Presence);

    let result = schema.validate(&text("hello")).unwrap();
    assert!(value_eq(&result, &Value::Bool(true)));
    let result = schema.validate(&Value::Absent).unwrap();
    assert!(value_eq(&result, &Value::Bool(false)));
}

// Literal schema fixed to the number 42: the exact value passes, another
// value and another type both report the literal category.
#[test]
fn test_scenario_literal_number() {
    let s = schema();
    let schema = s.literal(Value::Int(42));

    let result = schema.validate(&Value::Int(42)).unwrap();
    assert!(value_eq(&result, &Value::Int(42)));

    let err = schema.validate(&Value::Int(43)).unwrap_err();
    assert_eq!(err.code, "LITERAL_ERROR");
    assert_eq!(err.message, "Literal error: expected 42, got 43");

    let err = schema.validate(&text("42")).unwrap_err();
    assert_eq!(err.code, "LITERAL_ERROR");
    assert_eq!(err.message, "Literal error: expected 42, got \"42\"");
}

// An object missing two required fields reports exactly those two in its
// detail map, in declaration order.
#[test]
fn test_object_two_missing_fields() {
    let s = schema();
    let schema = s
        .object()
        .field("a", s.string())
        .field("b", s.number())
        .field("c", s.boolean());

    let obj = Value::Object(vec![("b".to_string(), Value::Num(Num::new(false, 1, 0)))]);
    let err = schema.validate(&obj).unwrap_err();
    assert_eq!(err.code, "OBJECT_ERROR");
    match &err.error_type {
        ErrorType::Object { errors } => {
            assert_eq!(errors.len(), 2);
            assert_eq!(errors[0].0, "a");
            assert_eq!(errors[1].0, "c");
            assert_eq!(errors[0].1.code, "MISSING_FIELD");
            assert_eq!(errors[1].1.code, "MISSING_FIELD");
            assert_eq!(errors[0].1.message, "Missing required field: 'a'");
        },
        _ => panic!("expected an aggregate error"),
    }
    assert_eq!(
        err.message,
        "a: Missing required field: 'a', c: Missing required field: 'c'"
    );
}

// Numeric text reading: signs, fractions, and the grammar's refusals.
#[test]
fn test_number_text_grammar() {
    let s = schema();
    let schema = s.coerce().number();

    let cases_ok = [
        ("0", Num::new(false, 0, 0)),
        ("-7", Num::new(true, 7, 0)),
        ("+3.50", Num::new(false, 35, 1)),
        ("42.5", Num::new(false, 425, 1)),
        (".5", Num::new(false, 5, 1)),
        ("1.", Num::new(false, 1, 0)),
        ("-0", Num::new(false, 0, 0)),
        ("007", Num::new(false, 7, 0)),
    ];
    for (input, expected) in cases_ok {
        let result = schema.validate(&text(input)).unwrap();
        assert!(value_eq(&result, &Value::Num(expected)), "case {}", input);
    }

    for input in ["", "+", "-", ".", "1.2.3", "1e3", " 42", "42 ", "4-2"] {
        assert!(schema.validate(&text(input)).is_err(), "case {}", input);
    }
}

// Number-to-text coercion uses the plain decimal format.
#[test]
fn test_number_to_text_format() {
    let s = schema();
    let schema = s.coerce().string();

    let result = schema.validate(&Value::Num(Num::new(false, 425, 1))).unwrap();
    assert!(matches!(result, Value::Str(ref t) if t == "42.5"));
    let result = schema.validate(&Value::Num(Num::new(true, 305, 2))).unwrap();
    assert!(matches!(result, Value::Str(ref t) if t == "-3.05"));
    let result = schema.validate(&Value::Num(Num::new(false, 42, 0))).unwrap();
    assert!(matches!(result, Value::Str(ref t) if t == "42"));
    let result = schema.validate(&Value::Int(-8)).unwrap();
    assert!(matches!(result, Value::Str(ref t) if t == "-8"));
}

// The transform chain order is observable: trimming after uppercasing and
// uppercasing after trimming agree here, but length-after-trim differs
// from trim-after-length.
#[test]
fn test_transform_chain_order() {
    let s = schema();

    let schema = s.string().transform(Transform::Trim).transform(Transform::Length);
    let result = schema.validate(&text("  ab  ")).unwrap();
    assert!(value_eq(&result, &Value::Int(2)));

    let schema = s.string().transform(Transform::Length).transform(Transform::Trim);
    let result = schema.validate(&text("  ab  ")).unwrap();
    assert!(value_eq(&result, &Value::Int(6)));
}

// A pattern is re-checked against the transformed output, so lowercasing
// before an email pattern accepts mixed-case input.
#[test]
fn test_pattern_after_transform() {
    let s = schema();
    let schema = s.string().transform(Transform::Lowercase).pattern(r"^[a-z]+$");

    let result = schema.validate(&text("HeLLo")).unwrap();
    assert!(matches!(result, Value::Str(ref t) if t == "hello"));

    let err = schema.validate(&text("no spaces allowed")).unwrap_err();
    assert_eq!(err.code, "PATTERN_ERROR");
}

// A pattern text outside the regular-expression grammar never matches.
#[test]
fn test_invalid_pattern_never_matches() {
    let s = schema();
    let schema = s.string().pattern(r"([unclosed");
    let err = schema.validate(&text("anything")).unwrap_err();
    assert_eq!(err.code, "PATTERN_ERROR");
}

// The built-in pattern table round-trips through its regular expressions.
#[test]
fn test_pattern_table() {
    let email = Pattern::Email;
    assert_eq!(Pattern::from_regex(email.regex()), Some(Pattern::Email));
    assert_eq!(Pattern::from_regex("^nothing$"), None);
    assert_eq!(email.description(), "valid email address");
}

// Revalidating the output of a successful coercion succeeds without
// further coercion: the strict sibling schema accepts it too.
#[test]
fn test_coercion_output_revalidates() {
    let s = schema();

    let out = s.coerce().number().validate(&text("42")).unwrap();
    assert!(s.number().validate(&out).is_ok());

    let out = s.coerce().string().validate(&Value::Int(7)).unwrap();
    assert!(s.string().validate(&out).is_ok());

    let out = s.coerce().boolean().validate(&text("false")).unwrap();
    assert!(s.boolean().validate(&out).is_ok());
}
