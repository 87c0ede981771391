use vstd::prelude::*;
use crate::error::{ErrModel, ValidationResult};
use crate::schema::transform::{apply_transform, run_transform, Transform};
use crate::schema::{res_view, spec_validate_any, swf_any, validate_any, AnySchema, Schema};
use crate::value::{vwf, Val, Value};

verus! {

/// A schema that makes another schema optional: the absent state becomes
/// valid, and present values are delegated to the inner schema.
pub struct OptionalSchema {
    pub inner: Box<AnySchema>,
}

/// What optional validation returns: the absent state passes untouched
/// (no inner constraint ever fires for it); a present wrapper hands its
/// content to the inner schema; a bare value goes to the inner schema
/// directly. Inner successes come back wrapped as present; inner errors
/// propagate unchanged.
pub open spec fn spec_validate_opt(o: OptionalSchema, v: Val) -> Result<Val, ErrModel>
    decreases o, 1int,
{
    match v {
        Val::Absent => Ok(Val::Absent),
        Val::Present(x) => match spec_validate_any(*o.inner, *x) {
            Ok(out) => Ok(Val::Present(Box::new(out))),
            Err(e) => Err(e),
        },
        _ => match spec_validate_any(*o.inner, v) {
            Ok(out) => Ok(Val::Present(Box::new(out))),
            Err(e) => Err(e),
        },
    }
}

/// Validates a value against an optional schema.
pub fn validate_opt(o: &OptionalSchema, value: &Value) -> (r: ValidationResult<Value>)
    requires
        swf_any(*o.inner),
        vwf(value@),
    ensures
        res_view(r) == spec_validate_opt(*o, value@),
        r matches Ok(v) ==> vwf(v@),
    decreases *o, 1int,
{
    match value {
        Value::Absent => Ok(Value::Absent),
        Value::Present(x) => {
            proof {
                assert(decreases_to!(*o => o.inner));
            }
            match validate_any(&*o.inner, &**x) {
                Ok(out) => Ok(Value::Present(Box::new(out))),
                Err(e) => Err(e),
            }
        },
        _ => {
            proof {
                assert(decreases_to!(*o => o.inner));
            }
            match validate_any(&*o.inner, value) {
                Ok(out) => Ok(Value::Present(Box::new(out))),
                Err(e) => Err(e),
            }
        },
    }
}

impl OptionalSchema {
    /// Wraps a child schema as optional.
    pub fn new(inner: AnySchema) -> (r: Self)
        ensures
            *r.inner == inner,
    {
        OptionalSchema { inner: Box::new(inner) }
    }

    /// Attaches a transform step over the whole optional outcome: a value
    /// step maps under the present wrapper and leaves the absent state
    /// untouched; the presence test reads the outcome itself.
    pub fn transform(self, t: Transform) -> (r: TransformedOptionalSchema)
        ensures
            r.schema == self,
            r.step == t,
    {
        TransformedOptionalSchema { schema: self, step: t }
    }
}

impl Schema for OptionalSchema {
    open spec fn spec_validate(&self, v: Val) -> Result<Val, ErrModel> {
        spec_validate_opt(*self, v)
    }

    open spec fn swf(&self) -> bool {
        swf_any(*self.inner)
    }

    open spec fn as_any(&self) -> AnySchema {
        AnySchema::Optional(*self)
    }

    fn validate(&self, value: &Value) -> (r: ValidationResult<Value>) {
        validate_opt(self, value)
    }

    fn into_any(self) -> (r: AnySchema) {
        AnySchema::Optional(self)
    }
}

/// An optional schema with a transform step over its whole outcome: the
/// step receives the present-or-absent result (a value step maps under the
/// present wrapper; the presence test turns the outcome into a boolean).
pub struct TransformedOptionalSchema {
    pub schema: OptionalSchema,
    pub step: Transform,
}

/// What transformed optional validation returns: the optional outcome with
/// the step applied to it.
pub open spec fn spec_validate_opt_transformed(
    o: OptionalSchema,
    t: Transform,
    v: Val,
) -> Result<Val, ErrModel> {
    match spec_validate_opt(o, v) {
        Ok(out) => Ok(apply_transform(t, out)),
        Err(e) => Err(e),
    }
}

impl TransformedOptionalSchema {
    /// Validates a value: the optional schema runs first, then the step
    /// runs on the whole outcome.
    pub fn validate(&self, value: &Value) -> (r: ValidationResult<Value>)
        requires
            swf_any(*self.schema.inner),
            vwf(value@),
        ensures
            res_view(r) == spec_validate_opt_transformed(self.schema, self.step, value@),
            r matches Ok(v) ==> vwf(v@),
    {
        match validate_opt(&self.schema, value) {
            Ok(out) => Ok(run_transform(&self.step, out)),
            Err(e) => Err(e),
        }
    }
}

} // verus!
