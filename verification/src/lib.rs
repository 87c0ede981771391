//! A schema validation library with a fluent API, built-in patterns, and
//! transformations: a dynamic value is checked against a declared shape,
//! optionally coerced toward a target primitive type, optionally
//! transformed, and either the resulting value or a structured error comes
//! back. Every schema's behaviour is stated as a mathematical
//! specification and the implementation is verified against it.

use vstd::prelude::*;

pub mod decimal;
pub mod error;
pub mod laws;
pub mod schema;
pub mod text;
pub mod value;

pub use decimal::Num;
pub use error::{ErrorConfig, ErrorType, ValidationError, ValidationResult};
pub use schema::boolean::BooleanSchema;
pub use schema::literal::LiteralSchema;
pub use schema::mapping::{FromFields, ValidateAs};
pub use schema::number::NumberSchema;
pub use schema::object::{ObjectSchema, TransformedObjectSchema};
pub use schema::optional::{OptionalSchema, TransformedOptionalSchema};
pub use schema::patterns::Pattern;
pub use schema::string::{StringSchema, TransformedSchema};
pub use schema::transform::Transform;
pub use schema::{AnySchema, Schema};
pub use value::{map_get, value_eq, Value};

verus! {

/// The main entry point for creating schemas: hands out primitive, object
/// and literal schema builders; its coercing variant hands out the same
/// with coercion pre-enabled.
pub struct SchemaBuilder {
    pub coerce: bool,
}

impl Default for SchemaBuilder {
    /// A builder with type coercion disabled.
    fn default() -> (r: Self)
        ensures
            !r.coerce,
    {
        SchemaBuilder { coerce: false }
    }
}

impl SchemaBuilder {
    /// Creates a builder with type coercion disabled.
    pub fn new() -> (r: Self)
        ensures
            !r.coerce,
    {
        SchemaBuilder { coerce: false }
    }

    /// Creates a string validation schema.
    pub fn string(&self) -> (r: StringSchema)
        ensures
            r.coerce == self.coerce,
            r.error_config is None,
            r.pattern is None,
            r.min_length is None,
            r.max_length is None,
    {
        StringSchema::new(self.coerce)
    }

    /// Creates a number validation schema.
    pub fn number(&self) -> (r: NumberSchema)
        ensures
            r.coerce == self.coerce,
            r.error_config is None,
            r.transforms@ == Seq::<Transform>::empty(),
    {
        NumberSchema::new(self.coerce)
    }

    /// Creates a boolean validation schema.
    pub fn boolean(&self) -> (r: BooleanSchema)
        ensures
            r.coerce == self.coerce,
            r.error_config is None,
            r.transforms@ == Seq::<Transform>::empty(),
    {
        BooleanSchema::new(self.coerce)
    }

    /// Creates an object validation schema. Built from the coercing
    /// factory, it steers each raw field value toward the child schema's
    /// primitive type before the child judges it.
    pub fn object(&self) -> (r: ObjectSchema)
        ensures
            r.error_config is None,
            r.fields@ == Seq::<(String, AnySchema)>::empty(),
            r.coerce == self.coerce,
    {
        ObjectSchema { error_config: None, fields: Vec::new(), coerce: self.coerce }
    }

    /// Creates a literal validation schema fixed to the given value.
    pub fn literal(&self, value: Value) -> (r: LiteralSchema)
        ensures
            r.value@ == value@,
            r.error_config is None,
    {
        LiteralSchema::new(value)
    }

    /// Enables type coercion for the schemas built from the result.
    pub fn coerce(&self) -> (r: CoerceBuilder)
        ensures
            r.builder.coerce,
    {
        CoerceBuilder { builder: SchemaBuilder { coerce: true } }
    }
}

/// A builder for schemas with type coercion enabled.
pub struct CoerceBuilder {
    pub builder: SchemaBuilder,
}

impl CoerceBuilder {
    /// Creates a string validation schema with type coercion enabled.
    pub fn string(&self) -> (r: StringSchema)
        ensures
            r.coerce == self.builder.coerce,
            r.error_config is None,
            r.pattern is None,
            r.min_length is None,
            r.max_length is None,
    {
        self.builder.string()
    }

    /// Creates a number validation schema with type coercion enabled.
    pub fn number(&self) -> (r: NumberSchema)
        ensures
            r.coerce == self.builder.coerce,
            r.error_config is None,
            r.transforms@ == Seq::<Transform>::empty(),
    {
        self.builder.number()
    }

    /// Creates a boolean validation schema with type coercion enabled.
    pub fn boolean(&self) -> (r: BooleanSchema)
        ensures
            r.coerce == self.builder.coerce,
            r.error_config is None,
            r.transforms@ == Seq::<Transform>::empty(),
    {
        self.builder.boolean()
    }

    /// Creates an object validation schema with per-field coercion toward
    /// each child schema's primitive type.
    pub fn object(&self) -> (r: ObjectSchema)
        ensures
            r.error_config is None,
            r.fields@ == Seq::<(String, AnySchema)>::empty(),
            r.coerce == self.builder.coerce,
    {
        self.builder.object()
    }
}

/// Creates a new schema builder.
pub fn schema() -> (r: SchemaBuilder)
    ensures
        !r.coerce,
{
    SchemaBuilder::new()
}

} // verus!
