use vstd::prelude::*;
use crate::error::{ErrModel, ValidationResult};
use crate::value::{vwf, Val, Value};

pub mod boolean;
pub mod literal;
pub mod mapping;
pub mod number;
pub mod object;
pub mod optional;
pub mod patterns;
pub mod string;
pub mod transform;

use boolean::BooleanSchema;
use literal::LiteralSchema;
use number::NumberSchema;
use object::{fields_wf, spec_validate_object, validate_object, ObjectSchema};
use optional::{spec_validate_opt, validate_opt, OptionalSchema};
use string::{spec_validate_string, spec_validate_transformed, StringSchema, TransformedSchema};

verus! {

/// The model of a validation outcome.
pub open spec fn res_view(r: ValidationResult<Value>) -> Result<Val, ErrModel> {
    match r {
        Ok(v) => Ok(v@),
        Err(e) => Err(e@),
    }
}

/// The common capability of every schema: validate a dynamic value and
/// produce the validated (possibly transformed) output or a structured
/// error. `spec_validate` is the schema's total mathematical semantics;
/// `validate` computes exactly it, and its outputs are well formed.
pub trait Schema: Sized {
    /// What validation returns for each input value.
    spec fn spec_validate(&self, v: Val) -> Result<Val, ErrModel>;

    /// Whether every value the schema stores is well formed.
    spec fn swf(&self) -> bool;

    /// This schema as an erased child schema, with the same semantics.
    spec fn as_any(&self) -> AnySchema;

    /// Validates a value against this schema.
    fn validate(&self, value: &Value) -> (r: ValidationResult<Value>)
        requires
            self.swf(),
            vwf(value@),
        ensures
            res_view(r) == self.spec_validate(value@),
            r matches Ok(v) ==> vwf(v@),
    ;

    /// Erases this schema into a child schema for an object field.
    fn into_any(self) -> (r: AnySchema)
        ensures
            r == self.as_any(),
    ;

    /// Makes this schema optional: the absent state becomes valid.
    fn optional(self) -> (r: OptionalSchema)
        ensures
            *r.inner == self.as_any(),
    {
        OptionalSchema { inner: Box::new(self.into_any()) }
    }
}

/// A child schema of an object field: any schema shape this library
/// offers, erased to one type.
pub enum AnySchema {
    Text(StringSchema),
    Number(NumberSchema),
    Boolean(BooleanSchema),
    Literal(LiteralSchema),
    Transformed(TransformedSchema),
    Optional(OptionalSchema),
    Object(ObjectSchema),
}

/// What validation by an erased child schema returns.
pub open spec fn spec_validate_any(s: AnySchema, v: Val) -> Result<Val, ErrModel>
    decreases s, 0int,
{
    match s {
        AnySchema::Text(x) => spec_validate_string(x, v),
        AnySchema::Number(x) => x.spec_validate(v),
        AnySchema::Boolean(x) => x.spec_validate(v),
        AnySchema::Literal(x) => x.spec_validate(v),
        AnySchema::Transformed(x) => spec_validate_transformed(x.schema, x.transforms@, v),
        AnySchema::Optional(o) => spec_validate_opt(o, v),
        AnySchema::Object(x) => spec_validate_object(x, v),
    }
}

/// Whether every value stored inside an erased child schema is well formed.
pub open spec fn swf_any(s: AnySchema) -> bool
    decreases s, 1int,
{
    match s {
        AnySchema::Literal(x) => vwf(x.value@),
        AnySchema::Optional(o) => swf_any(*o.inner),
        AnySchema::Object(x) => fields_wf(x.fields@),
        _ => true,
    }
}

/// Validates a value against an erased child schema.
pub fn validate_any(s: &AnySchema, value: &Value) -> (r: ValidationResult<Value>)
    requires
        swf_any(*s),
        vwf(value@),
    ensures
        res_view(r) == spec_validate_any(*s, value@),
        r matches Ok(v) ==> vwf(v@),
    decreases *s, 0int,
{
    match s {
        AnySchema::Text(x) => x.validate(value),
        AnySchema::Number(x) => x.validate(value),
        AnySchema::Boolean(x) => x.validate(value),
        AnySchema::Literal(x) => x.validate(value),
        AnySchema::Transformed(x) => x.validate(value),
        AnySchema::Optional(o) => validate_opt(o, value),
        AnySchema::Object(x) => validate_object(x, value),
    }
}

impl Schema for AnySchema {
    open spec fn spec_validate(&self, v: Val) -> Result<Val, ErrModel> {
        spec_validate_any(*self, v)
    }

    open spec fn swf(&self) -> bool {
        swf_any(*self)
    }

    open spec fn as_any(&self) -> AnySchema {
        *self
    }

    fn validate(&self, value: &Value) -> (r: ValidationResult<Value>) {
        validate_any(self, value)
    }

    fn into_any(self) -> (r: AnySchema) {
        self
    }
}

} // verus!
