use vstd::prelude::*;
use crate::error::{
    config_view, spec_new_error, ErrKind, ErrModel, ErrorConfig, ErrorType, ValidationError,
    ValidationResult,
};
use crate::schema::boolean::clone_config;
use crate::schema::Schema;
use crate::value::{dbg_str, render_debug, value_eq, vwf, Val, Value};

verus! {

/// A schema accepting exactly one fixed value. A mismatch in type and a
/// mismatch in content both report the literal category, with the expected
/// and the presented value rendered in their debug form.
pub struct LiteralSchema {
    pub value: Value,
    pub error_config: Option<ErrorConfig>,
}

impl LiteralSchema {
    /// Creates a literal schema fixed to the given value.
    pub fn new(value: Value) -> (r: Self)
        ensures
            r.value@ == value@,
            r.error_config is None,
    {
        LiteralSchema { value, error_config: None }
    }

    /// Sets a custom error code and message for every error this schema
    /// produces.
    pub fn set_message(self, code: &str, message: &str) -> (r: Self)
        ensures
            r.value@ == self.value@,
            config_view(r.error_config) == Some((code@, message@)),
    {
        LiteralSchema {
            error_config: Some(
                ErrorConfig { code: String::from_str(code), message: String::from_str(message) },
            ),
            ..self
        }
    }
}

impl Schema for LiteralSchema {
    /// The input passes exactly when it structurally equals the fixed
    /// value; anything else fails with a literal error naming both sides.
    open spec fn spec_validate(&self, v: Val) -> Result<Val, ErrModel> {
        if v == self.value@ {
            Ok(v)
        } else {
            Err(
                spec_new_error(
                    ErrKind::Literal { expected: dbg_str(self.value@), got: dbg_str(v) },
                    config_view(self.error_config),
                ),
            )
        }
    }

    open spec fn swf(&self) -> bool {
        vwf(self.value@)
    }

    open spec fn as_any(&self) -> crate::schema::AnySchema {
        crate::schema::AnySchema::Literal(*self)
    }

    fn into_any(self) -> (r: crate::schema::AnySchema) {
        crate::schema::AnySchema::Literal(self)
    }

    fn validate(&self, value: &Value) -> (r: ValidationResult<Value>) {
        if value_eq(value, &self.value) {
            Ok(value.clone())
        } else {
            Err(
                ValidationError::new(
                    ErrorType::Literal {
                        expected: render_debug(&self.value),
                        got: render_debug(value),
                    },
                    clone_config(&self.error_config),
                ),
            )
        }
    }
}

} // verus!
