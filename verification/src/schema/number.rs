use vstd::prelude::*;
use crate::decimal::{canon, spec_parse_num, parse_num, Num};
use crate::error::{
    config_view, spec_new_error, ErrKind, ErrModel, ErrorConfig, ErrorType, ValidationError,
    ValidationResult,
};
use crate::schema::boolean::clone_config;
use crate::schema::transform::{apply_transforms, run_transforms, Transform};
use crate::schema::Schema;
use crate::value::{type_label, type_label_of, Val, Value};

verus! {

/// The decimal standing for an integer.
pub open spec fn num_of_int(i: int) -> Num {
    canon(
        i < 0,
        (if i < 0 {
            -i
        } else {
            i
        }) as nat,
        0,
    )
}

/// The decimal standing for a boolean: one for true, zero for false.
pub open spec fn num_of_bool(b: bool) -> Num {
    canon(
        false,
        if b {
            1
        } else {
            0
        },
        0,
    )
}

/// A schema accepting numbers, optionally coercing integers, numeric text
/// and booleans, with a transform chain applied after validation.
pub struct NumberSchema {
    pub coerce: bool,
    pub error_config: Option<ErrorConfig>,
    pub transforms: Vec<Transform>,
}

impl NumberSchema {
    /// Creates a number schema.
    pub fn new(coerce: bool) -> (r: Self)
        ensures
            r.coerce == coerce,
            r.error_config is None,
            r.transforms@ == Seq::<Transform>::empty(),
    {
        NumberSchema { coerce, error_config: None, transforms: Vec::new() }
    }

    /// Sets a custom error code and message for every error this schema
    /// produces.
    pub fn set_message(self, code: &str, message: &str) -> (r: Self)
        ensures
            r.coerce == self.coerce,
            r.transforms@ == self.transforms@,
            config_view(r.error_config) == Some((code@, message@)),
    {
        NumberSchema {
            error_config: Some(
                ErrorConfig { code: String::from_str(code), message: String::from_str(message) },
            ),
            ..self
        }
    }

    /// Appends one transform step, run after the steps already attached.
    pub fn transform(self, t: Transform) -> (r: Self)
        ensures
            r.coerce == self.coerce,
            config_view(r.error_config) == config_view(self.error_config),
            r.transforms@ == self.transforms@.push(t),
    {
        let mut transforms = self.transforms;
        transforms.push(t);
        NumberSchema { transforms, ..self }
    }
}

impl Schema for NumberSchema {
    /// A number passes as itself. With coercion an integer widens, text is
    /// read by the numeric grammar (text outside it is the one coercion
    /// failure that is a value error, reported as String-to-Number), and a
    /// boolean becomes one or zero; any other shape fails with a coercion
    /// error. Without coercion every other shape fails with a type error.
    /// The transform chain runs on the accepted number.
    open spec fn spec_validate(&self, v: Val) -> Result<Val, ErrModel> {
        match v {
            Val::Num(n) => Ok(apply_transforms(self.transforms@, Val::Num(n))),
            _ => {
                if self.coerce {
                    match v {
                        Val::Int(i) => Ok(
                            apply_transforms(self.transforms@, Val::Num(num_of_int(i))),
                        ),
                        Val::Str(s) => match spec_parse_num(s) {
                            Some(n) => Ok(apply_transforms(self.transforms@, Val::Num(n))),
                            None => Err(
                                spec_new_error(
                                    ErrKind::Coercion { from: "String"@, to: "Number"@ },
                                    config_view(self.error_config),
                                ),
                            ),
                        },
                        Val::Bool(b) => Ok(
                            apply_transforms(self.transforms@, Val::Num(num_of_bool(b))),
                        ),
                        _ => Err(
                            spec_new_error(
                                ErrKind::Coercion { from: type_label(v), to: "Number"@ },
                                config_view(self.error_config),
                            ),
                        ),
                    }
                } else {
                    Err(
                        spec_new_error(
                            ErrKind::Type { expected: "Number"@, got: type_label(v) },
                            config_view(self.error_config),
                        ),
                    )
                }
            },
        }
    }

    open spec fn swf(&self) -> bool {
        true
    }

    open spec fn as_any(&self) -> crate::schema::AnySchema {
        crate::schema::AnySchema::Number(*self)
    }

    fn into_any(self) -> (r: crate::schema::AnySchema) {
        crate::schema::AnySchema::Number(self)
    }

    fn validate(&self, value: &Value) -> (r: ValidationResult<Value>) {
        let n: Num = match value {
            Value::Num(n) => *n,
            Value::Int(i) if self.coerce => Num::from_int(*i),
            Value::Str(s) if self.coerce => {
                match parse_num(s.as_str()) {
                    Some(n) => n,
                    None => {
                        return Err(
                            ValidationError::new(
                                ErrorType::Coercion {
                                    from: String::from_str("String"),
                                    to: String::from_str("Number"),
                                },
                                clone_config(&self.error_config),
                            ),
                        );
                    },
                }
            },
            Value::Bool(b) if self.coerce => Num::new(false, if *b { 1 } else { 0 }, 0),
            _ => {
                if self.coerce {
                    return Err(
                        ValidationError::new(
                            ErrorType::Coercion {
                                from: String::from_str(type_label_of(value)),
                                to: String::from_str("Number"),
                            },
                            clone_config(&self.error_config),
                        ),
                    );
                }
                return Err(
                    ValidationError::new(
                        ErrorType::Type {
                            expected: String::from_str("Number"),
                            got: String::from_str(type_label_of(value)),
                        },
                        clone_config(&self.error_config),
                    ),
                );
            },
        };
        Ok(run_transforms(&self.transforms, Value::Num(n)))
    }
}

} // verus!
