use vstd::prelude::*;
use crate::decimal::num_str;
use crate::error::{
    config_view, spec_new_error, ErrKind, ErrModel, ErrorConfig, ErrorType, ValidationError,
    ValidationResult,
};
use crate::schema::boolean::clone_config;
use crate::schema::patterns::{pattern_ok, Pattern};
use crate::schema::transform::{apply_transforms, run_transforms, Transform};
use crate::schema::Schema;
use crate::text::int_str;
use crate::value::{type_label, type_label_of, vwf, Val, Value};

verus! {

/// The text a value coerces to when coercion toward strings is enabled:
/// integers and decimals render as their decimal text (the one consistent
/// numeric format this library uses), booleans as `true`/`false`; nothing
/// else coerces.
pub open spec fn coerce_text(v: Val) -> Option<Seq<char>> {
    match v {
        Val::Int(i) => Some(int_str(i)),
        Val::Num(n) => Some(num_str(n)),
        Val::Bool(b) => Some(
            if b {
                "true"@
            } else {
                "false"@
            },
        ),
        _ => None,
    }
}

/// The text the input is validated against: the string itself, or with
/// coercion enabled the coerced text of a scalar.
pub open spec fn accepted_text(coerce: bool, v: Val) -> Option<Seq<char>> {
    match v {
        Val::Str(s) => Some(s),
        _ => if coerce {
            coerce_text(v)
        } else {
            None
        },
    }
}

/// A schema accepting strings, optionally coercing scalars to text, with
/// optional length bounds and one optional pattern. Checks run in the
/// order type, minimum length, maximum length, pattern; the first failing
/// check decides the error.
pub struct StringSchema {
    pub coerce: bool,
    pub error_config: Option<ErrorConfig>,
    pub pattern: Option<Pattern>,
    pub min_length: Option<usize>,
    pub max_length: Option<usize>,
}

/// What string validation returns: used by the plain schema and, for the
/// type and length checks, by the transformed one.
pub open spec fn spec_validate_string(s: StringSchema, v: Val) -> Result<Val, ErrModel> {
    match accepted_text(s.coerce, v) {
        None => Err(
            spec_new_error(
                ErrKind::Type { expected: "String"@, got: type_label(v) },
                config_view(s.error_config),
            ),
        ),
        Some(text) => {
            if s.min_length is Some && text.len() < s.min_length->0 {
                Err(
                    spec_new_error(
                        ErrKind::MinLength { min: s.min_length->0 as int, got: text.len() as int },
                        config_view(s.error_config),
                    ),
                )
            } else if s.max_length is Some && text.len() > s.max_length->0 {
                Err(
                    spec_new_error(
                        ErrKind::MaxLength { max: s.max_length->0 as int, got: text.len() as int },
                        config_view(s.error_config),
                    ),
                )
            } else if s.pattern is Some && !pattern_ok(s.pattern->0.spec_source(), text) {
                Err(
                    spec_new_error(
                        ErrKind::Pattern { pattern: s.pattern->0.spec_source(), got: text },
                        config_view(s.error_config),
                    ),
                )
            } else {
                Ok(Val::Str(text))
            }
        },
    }
}

impl StringSchema {
    /// Creates a string schema.
    pub fn new(coerce: bool) -> (r: Self)
        ensures
            r.coerce == coerce,
            r.error_config is None,
            r.pattern is None,
            r.min_length is None,
            r.max_length is None,
    {
        StringSchema {
            coerce,
            error_config: None,
            pattern: None,
            min_length: None,
            max_length: None,
        }
    }

    /// Sets a custom error code and message for every error this schema
    /// produces.
    pub fn set_message(self, code: &str, message: &str) -> (r: Self)
        ensures
            r == (StringSchema {
                error_config: r.error_config,
                ..self
            }),
            config_view(r.error_config) == Some((code@, message@)),
    {
        StringSchema {
            error_config: Some(
                ErrorConfig { code: String::from_str(code), message: String::from_str(message) },
            ),
            ..self
        }
    }

    /// Sets a custom regular expression the string must match. A pattern
    /// text that is not a valid regular expression never matches anything.
    pub fn pattern(self, pattern: &str) -> (r: Self)
        ensures
            r == (StringSchema { pattern: r.pattern, ..self }),
            r.pattern matches Some(p) && p.spec_source() == pattern@,
    {
        StringSchema { pattern: Some(Pattern::Custom(String::from_str(pattern))), ..self }
    }

    /// Sets a built-in named pattern together with its error pair,
    /// overwriting any pattern and error configuration set before.
    fn named_pattern(self, pattern: Pattern, code: &str, message: &str) -> (r: Self)
        ensures
            r == (StringSchema { pattern: r.pattern, error_config: r.error_config, ..self }),
            r.pattern == Some(pattern),
            config_view(r.error_config) == Some((code@, message@)),
    {
        StringSchema {
            pattern: Some(pattern),
            error_config: Some(
                ErrorConfig { code: String::from_str(code), message: String::from_str(message) },
            ),
            ..self
        }
    }

    /// Requires a valid email address.
    pub fn email(self) -> (r: Self)
        ensures
            r == (StringSchema { pattern: r.pattern, error_config: r.error_config, ..self }),
            r.pattern == Some(Pattern::Email),
            config_view(r.error_config) == Some(("INVALID_EMAIL"@, "Invalid email format"@)),
    {
        self.named_pattern(Pattern::Email, "INVALID_EMAIL", "Invalid email format")
    }

    /// Requires a valid URL.
    pub fn url(self) -> (r: Self)
        ensures
            r == (StringSchema { pattern: r.pattern, error_config: r.error_config, ..self }),
            r.pattern == Some(Pattern::Url),
            config_view(r.error_config) == Some(("INVALID_URL"@, "Invalid URL format"@)),
    {
        self.named_pattern(Pattern::Url, "INVALID_URL", "Invalid URL format")
    }

    /// Requires a date in YYYY-MM-DD format.
    pub fn date(self) -> (r: Self)
        ensures
            r == (StringSchema { pattern: r.pattern, error_config: r.error_config, ..self }),
            r.pattern == Some(Pattern::Date),
            config_view(r.error_config) == Some(
                ("INVALID_DATE"@, "Invalid date format, expected YYYY-MM-DD"@),
            ),
    {
        self.named_pattern(Pattern::Date, "INVALID_DATE", "Invalid date format, expected YYYY-MM-DD")
    }

    /// Requires a time in HH:MM:SS format.
    pub fn time(self) -> (r: Self)
        ensures
            r == (StringSchema { pattern: r.pattern, error_config: r.error_config, ..self }),
            r.pattern == Some(Pattern::Time),
            config_view(r.error_config) == Some(
                ("INVALID_TIME"@, "Invalid time format, expected HH:MM:SS"@),
            ),
    {
        self.named_pattern(Pattern::Time, "INVALID_TIME", "Invalid time format, expected HH:MM:SS")
    }

    /// Requires a UUID (version 4).
    pub fn uuid(self) -> (r: Self)
        ensures
            r == (StringSchema { pattern: r.pattern, error_config: r.error_config, ..self }),
            r.pattern == Some(Pattern::Uuid),
            config_view(r.error_config) == Some(("INVALID_UUID"@, "Invalid UUID format"@)),
    {
        self.named_pattern(Pattern::Uuid, "INVALID_UUID", "Invalid UUID format")
    }

    /// Requires an IPv4 address.
    pub fn ipv4(self) -> (r: Self)
        ensures
            r == (StringSchema { pattern: r.pattern, error_config: r.error_config, ..self }),
            r.pattern == Some(Pattern::Ipv4),
            config_view(r.error_config) == Some(
                ("INVALID_IPV4"@, "Invalid IPv4 address format"@),
            ),
    {
        self.named_pattern(Pattern::Ipv4, "INVALID_IPV4", "Invalid IPv4 address format")
    }

    /// Requires a phone number in international format.
    pub fn phone(self) -> (r: Self)
        ensures
            r == (StringSchema { pattern: r.pattern, error_config: r.error_config, ..self }),
            r.pattern == Some(Pattern::Phone),
            config_view(r.error_config) == Some(
                ("INVALID_PHONE"@, "Invalid phone number format"@),
            ),
    {
        self.named_pattern(Pattern::Phone, "INVALID_PHONE", "Invalid phone number format")
    }

    /// Requires a username (3-16 characters, alphanumeric with underscore
    /// and dash).
    pub fn username(self) -> (r: Self)
        ensures
            r == (StringSchema { pattern: r.pattern, error_config: r.error_config, ..self }),
            r.pattern == Some(Pattern::Username),
            config_view(r.error_config) == Some(
                (
                    "INVALID_USERNAME"@,
                    "Invalid username format (3-16 chars, alphanumeric with underscore and dash)"@,
                ),
            ),
    {
        self.named_pattern(
            Pattern::Username,
            "INVALID_USERNAME",
            "Invalid username format (3-16 chars, alphanumeric with underscore and dash)",
        )
    }

    /// Requires a strong password.
    pub fn password(self) -> (r: Self)
        ensures
            r == (StringSchema { pattern: r.pattern, error_config: r.error_config, ..self }),
            r.pattern == Some(Pattern::StrongPassword),
            config_view(r.error_config) == Some(
                (
                    "INVALID_PASSWORD"@,
                    "Invalid password format (min 8 chars, at least one uppercase, one lowercase, one number)"@,
                ),
            ),
    {
        self.named_pattern(
            Pattern::StrongPassword,
            "INVALID_PASSWORD",
            "Invalid password format (min 8 chars, at least one uppercase, one lowercase, one number)",
        )
    }

    /// Sets the minimum length (in characters) for the string.
    pub fn min_length(self, length: usize) -> (r: Self)
        ensures
            r == (StringSchema { min_length: Some(length), ..self }),
    {
        StringSchema { min_length: Some(length), ..self }
    }

    /// Sets the maximum length (in characters) for the string.
    pub fn max_length(self, length: usize) -> (r: Self)
        ensures
            r == (StringSchema { max_length: Some(length), ..self }),
    {
        StringSchema { max_length: Some(length), ..self }
    }

    /// Promotes this schema into a transform chain with one step.
    pub fn transform(self, t: Transform) -> (r: TransformedSchema)
        ensures
            r.schema == self,
            r.transforms@ == seq![t],
    {
        let mut transforms: Vec<Transform> = Vec::new();
        transforms.push(t);
        proof {
            assert(transforms@ =~= seq![t]);
        }
        TransformedSchema { schema: self, transforms }
    }

    /// Trims whitespace from both ends of the validated string.
    pub fn trim(self) -> (r: TransformedSchema)
        ensures
            r.schema == self,
            r.transforms@ == seq![Transform::Trim],
    {
        self.transform(Transform::Trim)
    }

    /// Lowercases the validated string.
    pub fn to_lowercase(self) -> (r: TransformedSchema)
        ensures
            r.schema == self,
            r.transforms@ == seq![Transform::Lowercase],
    {
        self.transform(Transform::Lowercase)
    }

    /// Uppercases the validated string.
    pub fn to_uppercase(self) -> (r: TransformedSchema)
        ensures
            r.schema == self,
            r.transforms@ == seq![Transform::Uppercase],
    {
        self.transform(Transform::Uppercase)
    }

    fn accept_text(&self, value: &Value) -> (r: Option<String>)
        requires
            vwf(value@),
        ensures
            match r {
                Some(s) => accepted_text(self.coerce, value@) == Some(s@),
                None => accepted_text(self.coerce, value@) is None,
            },
    {
        match value {
            Value::Str(s) => Some(s.clone()),
            Value::Int(i) if self.coerce => Some(crate::text::i64_to_string(*i)),
            Value::Num(n) if self.coerce => Some(n.to_text()),
            Value::Bool(b) if self.coerce => Some(
                if *b {
                    String::from_str("true")
                } else {
                    String::from_str("false")
                },
            ),
            _ => None,
        }
    }
}

impl Schema for StringSchema {
    open spec fn spec_validate(&self, v: Val) -> Result<Val, ErrModel> {
        spec_validate_string(*self, v)
    }

    open spec fn swf(&self) -> bool {
        true
    }

    open spec fn as_any(&self) -> crate::schema::AnySchema {
        crate::schema::AnySchema::Text(*self)
    }

    fn into_any(self) -> (r: crate::schema::AnySchema) {
        crate::schema::AnySchema::Text(self)
    }

    fn validate(&self, value: &Value) -> (r: ValidationResult<Value>) {
        let text = match self.accept_text(value) {
            Some(s) => s,
            None => {
                return Err(
                    ValidationError::new(
                        ErrorType::Type {
                            expected: String::from_str("String"),
                            got: String::from_str(type_label_of(value)),
                        },
                        clone_config(&self.error_config),
                    ),
                );
            },
        };
        let len = text.as_str().unicode_len();
        if let Some(m) = self.min_length {
            if len < m {
                return Err(
                    ValidationError::new(
                        ErrorType::MinLength { min: m, got: len },
                        clone_config(&self.error_config),
                    ),
                );
            }
        }
        if let Some(m) = self.max_length {
            if len > m {
                return Err(
                    ValidationError::new(
                        ErrorType::MaxLength { max: m, got: len },
                        clone_config(&self.error_config),
                    ),
                );
            }
        }
        if let Some(p) = &self.pattern {
            if !p.matches(text.as_str()) {
                return Err(
                    ValidationError::new(
                        ErrorType::Pattern {
                            pattern: String::from_str(p.regex()),
                            got: text,
                        },
                        clone_config(&self.error_config),
                    ),
                );
            }
        }
        Ok(Value::Str(text))
    }
}

/// The text a transformed output still projects to, for re-checking a
/// pattern after transformation: a string itself, or the decimal text of an
/// integer or decimal, or a boolean's text; other shapes have none.
pub open spec fn text_proj(v: Val) -> Option<Seq<char>> {
    match v {
        Val::Str(s) => Some(s),
        Val::Int(i) => Some(int_str(i)),
        Val::Num(n) => Some(num_str(n)),
        Val::Bool(b) => Some(
            if b {
                "true"@
            } else {
                "false"@
            },
        ),
        _ => None,
    }
}

/// The string projection of a transformed output, when it has one.
pub fn transformed_to_string(v: &Value) -> (r: Option<String>)
    requires
        vwf(v@),
    ensures
        match r {
            Some(s) => text_proj(v@) == Some(s@),
            None => text_proj(v@) is None,
        },
{
    match v {
        Value::Str(s) => Some(s.clone()),
        Value::Int(i) => Some(crate::text::i64_to_string(*i)),
        Value::Num(n) => Some(n.to_text()),
        Value::Bool(b) => Some(
            if *b {
                String::from_str("true")
            } else {
                String::from_str("false")
            },
        ),
        _ => None,
    }
}

/// A string schema promoted into a transform chain: the base checks other
/// than the pattern run first, the steps apply in declared order, and a
/// configured pattern is re-checked against the transformed output when
/// that output still projects to text.
pub struct TransformedSchema {
    pub schema: StringSchema,
    pub transforms: Vec<Transform>,
}

/// What transformed string validation returns.
pub open spec fn spec_validate_transformed(
    s: StringSchema,
    ts: Seq<Transform>,
    v: Val,
) -> Result<Val, ErrModel> {
    match accepted_text(s.coerce, v) {
        None => Err(
            spec_new_error(
                ErrKind::Type { expected: "String"@, got: type_label(v) },
                config_view(s.error_config),
            ),
        ),
        Some(text) => {
            if s.min_length is Some && text.len() < s.min_length->0 {
                Err(
                    spec_new_error(
                        ErrKind::MinLength { min: s.min_length->0 as int, got: text.len() as int },
                        config_view(s.error_config),
                    ),
                )
            } else if s.max_length is Some && text.len() > s.max_length->0 {
                Err(
                    spec_new_error(
                        ErrKind::MaxLength { max: s.max_length->0 as int, got: text.len() as int },
                        config_view(s.error_config),
                    ),
                )
            } else {
                let out = apply_transforms(ts, Val::Str(text));
                if s.pattern is Some && text_proj(out) is Some && !pattern_ok(
                    s.pattern->0.spec_source(),
                    text_proj(out)->0,
                ) {
                    Err(
                        spec_new_error(
                            ErrKind::Pattern {
                                pattern: s.pattern->0.spec_source(),
                                got: text_proj(out)->0,
                            },
                            config_view(s.error_config),
                        ),
                    )
                } else {
                    Ok(out)
                }
            }
        },
    }
}

impl TransformedSchema {
    /// Sets a custom error code and message for every error this schema
    /// produces.
    pub fn set_message(self, code: &str, message: &str) -> (r: Self)
        ensures
            r.transforms@ == self.transforms@,
            r.schema == (StringSchema { error_config: r.schema.error_config, ..self.schema }),
            config_view(r.schema.error_config) == Some((code@, message@)),
    {
        TransformedSchema { schema: self.schema.set_message(code, message), ..self }
    }

    /// Appends one transform step, run after the steps already attached.
    pub fn transform(self, t: Transform) -> (r: Self)
        ensures
            r.schema == self.schema,
            r.transforms@ == self.transforms@.push(t),
    {
        let mut transforms = self.transforms;
        transforms.push(t);
        TransformedSchema { transforms, ..self }
    }

    /// Appends a whitespace-trimming step.
    pub fn trim(self) -> (r: Self)
        ensures
            r.schema == self.schema,
            r.transforms@ == self.transforms@.push(Transform::Trim),
    {
        self.transform(Transform::Trim)
    }

    /// Appends a lowercasing step.
    pub fn to_lowercase(self) -> (r: Self)
        ensures
            r.schema == self.schema,
            r.transforms@ == self.transforms@.push(Transform::Lowercase),
    {
        self.transform(Transform::Lowercase)
    }

    /// Appends an uppercasing step.
    pub fn to_uppercase(self) -> (r: Self)
        ensures
            r.schema == self.schema,
            r.transforms@ == self.transforms@.push(Transform::Uppercase),
    {
        self.transform(Transform::Uppercase)
    }

    /// Requires a valid email address of the base schema.
    pub fn email(self) -> (r: Self)
        ensures
            r.transforms@ == self.transforms@,
            r.schema == (StringSchema {
                pattern: r.schema.pattern,
                error_config: r.schema.error_config,
                ..self.schema
            }),
            r.schema.pattern == Some(Pattern::Email),
            config_view(r.schema.error_config) == Some(
                ("INVALID_EMAIL"@, "Invalid email format"@),
            ),
    {
        TransformedSchema { schema: self.schema.email(), ..self }
    }

    /// Requires a valid URL of the base schema.
    pub fn url(self) -> (r: Self)
        ensures
            r.transforms@ == self.transforms@,
            r.schema == (StringSchema {
                pattern: r.schema.pattern,
                error_config: r.schema.error_config,
                ..self.schema
            }),
            r.schema.pattern == Some(Pattern::Url),
            config_view(r.schema.error_config) == Some(("INVALID_URL"@, "Invalid URL format"@)),
    {
        TransformedSchema { schema: self.schema.url(), ..self }
    }

    /// Requires a date in YYYY-MM-DD format of the base schema.
    pub fn date(self) -> (r: Self)
        ensures
            r.transforms@ == self.transforms@,
            r.schema.pattern == Some(Pattern::Date),
    {
        TransformedSchema { schema: self.schema.date(), ..self }
    }

    /// Requires a time in HH:MM:SS format of the base schema.
    pub fn time(self) -> (r: Self)
        ensures
            r.transforms@ == self.transforms@,
            r.schema.pattern == Some(Pattern::Time),
    {
        TransformedSchema { schema: self.schema.time(), ..self }
    }

    /// Requires a UUID (version 4) of the base schema.
    pub fn uuid(self) -> (r: Self)
        ensures
            r.transforms@ == self.transforms@,
            r.schema.pattern == Some(Pattern::Uuid),
    {
        TransformedSchema { schema: self.schema.uuid(), ..self }
    }

    /// Requires an IPv4 address of the base schema.
    pub fn ipv4(self) -> (r: Self)
        ensures
            r.transforms@ == self.transforms@,
            r.schema.pattern == Some(Pattern::Ipv4),
    {
        TransformedSchema { schema: self.schema.ipv4(), ..self }
    }

    /// Requires a phone number of the base schema.
    pub fn phone(self) -> (r: Self)
        ensures
            r.transforms@ == self.transforms@,
            r.schema.pattern == Some(Pattern::Phone),
    {
        TransformedSchema { schema: self.schema.phone(), ..self }
    }

    /// Requires a username of the base schema.
    pub fn username(self) -> (r: Self)
        ensures
            r.transforms@ == self.transforms@,
            r.schema.pattern == Some(Pattern::Username),
    {
        TransformedSchema { schema: self.schema.username(), ..self }
    }

    /// Requires a strong password of the base schema.
    pub fn password(self) -> (r: Self)
        ensures
            r.transforms@ == self.transforms@,
            r.schema.pattern == Some(Pattern::StrongPassword),
    {
        TransformedSchema { schema: self.schema.password(), ..self }
    }

    /// Sets a custom regular expression on the base schema.
    pub fn pattern(self, pattern: &str) -> (r: Self)
        ensures
            r.transforms@ == self.transforms@,
            r.schema == (StringSchema { pattern: r.schema.pattern, ..self.schema }),
            r.schema.pattern matches Some(p) && p.spec_source() == pattern@,
    {
        TransformedSchema { schema: self.schema.pattern(pattern), ..self }
    }

    /// Sets the minimum length on the base schema, checked before the
    /// transform steps run.
    pub fn min_length(self, length: usize) -> (r: Self)
        ensures
            r.transforms@ == self.transforms@,
            r.schema == (StringSchema { min_length: Some(length), ..self.schema }),
    {
        TransformedSchema { schema: self.schema.min_length(length), ..self }
    }

    /// Sets the maximum length on the base schema, checked before the
    /// transform steps run.
    pub fn max_length(self, length: usize) -> (r: Self)
        ensures
            r.transforms@ == self.transforms@,
            r.schema == (StringSchema { max_length: Some(length), ..self.schema }),
    {
        TransformedSchema { schema: self.schema.max_length(length), ..self }
    }
}

impl Schema for TransformedSchema {
    open spec fn spec_validate(&self, v: Val) -> Result<Val, ErrModel> {
        spec_validate_transformed(self.schema, self.transforms@, v)
    }

    open spec fn swf(&self) -> bool {
        true
    }

    open spec fn as_any(&self) -> crate::schema::AnySchema {
        crate::schema::AnySchema::Transformed(TransformedSchema { schema: self.schema, transforms: self.transforms })
    }

    fn into_any(self) -> (r: crate::schema::AnySchema) {
        crate::schema::AnySchema::Transformed(self)
    }

    fn validate(&self, value: &Value) -> (r: ValidationResult<Value>) {
        let text = match self.schema.accept_text(value) {
            Some(s) => s,
            None => {
                return Err(
                    ValidationError::new(
                        ErrorType::Type {
                            expected: String::from_str("String"),
                            got: String::from_str(type_label_of(value)),
                        },
                        clone_config(&self.schema.error_config),
                    ),
                );
            },
        };
        let len = text.as_str().unicode_len();
        if let Some(m) = self.schema.min_length {
            if len < m {
                return Err(
                    ValidationError::new(
                        ErrorType::MinLength { min: m, got: len },
                        clone_config(&self.schema.error_config),
                    ),
                );
            }
        }
        if let Some(m) = self.schema.max_length {
            if len > m {
                return Err(
                    ValidationError::new(
                        ErrorType::MaxLength { max: m, got: len },
                        clone_config(&self.schema.error_config),
                    ),
                );
            }
        }
        let out = run_transforms(&self.transforms, Value::Str(text));
        if let Some(p) = &self.schema.pattern {
            if let Some(t) = transformed_to_string(&out) {
                if !p.matches(t.as_str()) {
                    return Err(
                        ValidationError::new(
                            ErrorType::Pattern {
                                pattern: String::from_str(p.regex()),
                                got: t,
                            },
                            clone_config(&self.schema.error_config),
                        ),
                    );
                }
            }
        }
        Ok(out)
    }
}

} // verus!
