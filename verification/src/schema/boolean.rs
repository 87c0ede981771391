use vstd::prelude::*;
use crate::error::{
    config_view, spec_new_error, ErrKind, ErrModel, ErrorConfig, ErrorType, ValidationError,
    ValidationResult,
};
use crate::schema::transform::{apply_transforms, run_transforms, Transform};
use crate::schema::Schema;
use crate::value::{type_label, type_label_of, Val, Value};

verus! {

/// The truthiness of a value, used when coercion to boolean is enabled:
/// the empty string, zero, the empty array, and the absent state are false;
/// every other presented value is true; a field mapping has no truthiness.
pub open spec fn truthy(v: Val) -> Option<bool> {
    match v {
        Val::Bool(b) => Some(b),
        Val::Int(i) => Some(i != 0),
        Val::Num(n) => Some(!n.spec_is_zero()),
        Val::Str(s) => Some(s.len() > 0),
        Val::Absent => Some(false),
        Val::Present(_) => Some(true),
        Val::Array(items) => Some(items.len() > 0),
        Val::Object(_) => None,
    }
}

/// A schema accepting booleans, optionally coercing other shapes by
/// truthiness, with a transform chain applied after validation.
pub struct BooleanSchema {
    pub coerce: bool,
    pub error_config: Option<ErrorConfig>,
    pub transforms: Vec<Transform>,
}

impl BooleanSchema {
    /// Creates a boolean schema.
    pub fn new(coerce: bool) -> (r: Self)
        ensures
            r.coerce == coerce,
            r.error_config is None,
            r.transforms@ == Seq::<Transform>::empty(),
    {
        BooleanSchema { coerce, error_config: None, transforms: Vec::new() }
    }

    /// Sets a custom error code and message for every error this schema
    /// produces.
    pub fn set_message(self, code: &str, message: &str) -> (r: Self)
        ensures
            r.coerce == self.coerce,
            r.transforms@ == self.transforms@,
            config_view(r.error_config) == Some((code@, message@)),
    {
        BooleanSchema {
            error_config: Some(
                ErrorConfig { code: String::from_str(code), message: String::from_str(message) },
            ),
            ..self
        }
    }

    /// Appends one transform step, run after the steps already attached.
    pub fn transform(self, t: Transform) -> (r: Self)
        ensures
            r.coerce == self.coerce,
            config_view(r.error_config) == config_view(self.error_config),
            r.transforms@ == self.transforms@.push(t),
    {
        let mut transforms = self.transforms;
        transforms.push(t);
        BooleanSchema { transforms, ..self }
    }
}

impl Schema for BooleanSchema {
    /// A boolean passes as itself; with coercion any value with a
    /// truthiness passes as it; everything else fails, with a coercion
    /// error where coercion was tried and a type error where it was off.
    /// The transform chain runs on the accepted boolean.
    open spec fn spec_validate(&self, v: Val) -> Result<Val, ErrModel> {
        match v {
            Val::Bool(b) => Ok(apply_transforms(self.transforms@, Val::Bool(b))),
            _ => {
                if self.coerce {
                    match truthy(v) {
                        Some(b) => Ok(apply_transforms(self.transforms@, Val::Bool(b))),
                        None => Err(
                            spec_new_error(
                                ErrKind::Coercion { from: type_label(v), to: "Boolean"@ },
                                config_view(self.error_config),
                            ),
                        ),
                    }
                } else {
                    Err(
                        spec_new_error(
                            ErrKind::Type { expected: "Boolean"@, got: type_label(v) },
                            config_view(self.error_config),
                        ),
                    )
                }
            },
        }
    }

    open spec fn swf(&self) -> bool {
        true
    }

    open spec fn as_any(&self) -> crate::schema::AnySchema {
        crate::schema::AnySchema::Boolean(*self)
    }

    fn into_any(self) -> (r: crate::schema::AnySchema) {
        crate::schema::AnySchema::Boolean(self)
    }

    fn validate(&self, value: &Value) -> (r: ValidationResult<Value>) {
        let b_opt: Option<bool> = match value {
            Value::Bool(b) => Some(*b),
            _ => {
                if self.coerce {
                    match value {
                        Value::Bool(b) => Some(*b),
                        Value::Int(i) => Some(*i != 0),
                        Value::Num(n) => Some(!n.is_zero()),
                        Value::Str(s) => Some(!s.as_str().is_empty()),
                        Value::Absent => Some(false),
                        Value::Present(_) => Some(true),
                        Value::Array(items) => {
                            proof {
                                crate::value::lemma_view_items(items@);
                            }
                            Some(items.len() > 0)
                        },
                        Value::Object(_) => {
                            return Err(
                                ValidationError::new(
                                    ErrorType::Coercion {
                                        from: String::from_str(type_label_of(value)),
                                        to: String::from_str("Boolean"),
                                    },
                                    clone_config(&self.error_config),
                                ),
                            );
                        },
                    }
                } else {
                    return Err(
                        ValidationError::new(
                            ErrorType::Type {
                                expected: String::from_str("Boolean"),
                                got: String::from_str(type_label_of(value)),
                            },
                            clone_config(&self.error_config),
                        ),
                    );
                }
            },
        };
        let b = b_opt.unwrap();
        Ok(run_transforms(&self.transforms, Value::Bool(b)))
    }
}

/// Copies an optional error override.
pub(crate) fn clone_config(config: &Option<ErrorConfig>) -> (r: Option<ErrorConfig>)
    ensures
        config_view(r) == config_view(*config),
{
    match config {
        Some(cfg) => Some(cfg.clone()),
        None => None,
    }
}

} // verus!
