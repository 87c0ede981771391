use vstd::prelude::*;
use crate::error::{
    config_view, spec_new_error, view_of_err_entries, ErrKind, ErrModel, ErrorConfig, ErrorType,
    ValidationError, ValidationResult,
};
use crate::decimal::{parse_num, spec_parse_num, Num};
use crate::schema::boolean::{clone_config, truthy};
use crate::schema::number::{num_of_bool, num_of_int};
use crate::schema::string::coerce_text;
use crate::schema::mapping::{FromFields, ValidateAs};
use crate::schema::{res_view, spec_validate_any, swf_any, validate_any, AnySchema, Schema};
use crate::text::str_eq;
use crate::value::{
    lemma_view_entries, lemma_vwf_entries, lookup, type_label, type_label_of, view_entries, vwf,
    vwf_entries, Val, Value,
};

verus! {

/// A value handed to a field schema: one explicit present wrapper is
/// removed, so an optional child sees the bare content and a plain child
/// validates it directly.
pub open spec fn unwrap_present(v: Val) -> Val {
    match v {
        Val::Present(x) => *x,
        _ => v,
    }
}

/// The models of a field table's entries: each name as its characters,
/// each child schema as itself.
pub open spec fn fields_view(s: Seq<(String, AnySchema)>) -> Seq<(Seq<char>, AnySchema)>
    decreases s.len(),
{
    if s.len() == 0 {
        Seq::empty()
    } else {
        fields_view(s.drop_last()).push((s.last().0@, s.last().1))
    }
}

pub broadcast proof fn lemma_fields_view(s: Seq<(String, AnySchema)>)
    ensures
        (#[trigger] fields_view(s)).len() == s.len(),
        forall|i: int| 0 <= i < s.len() ==> #[trigger] fields_view(s)[i] == (s[i].0@, s[i].1),
    decreases s.len(),
{
    if s.len() > 0 {
        lemma_fields_view(s.drop_last());
    }
}

/// The field table without the entries of one name.
pub open spec fn remove_name(fields: Seq<(Seq<char>, AnySchema)>, name: Seq<char>) -> Seq<
    (Seq<char>, AnySchema),
>
    decreases fields.len(),
{
    if fields.len() == 0 {
        Seq::empty()
    } else {
        let rest = remove_name(fields.drop_last(), name);
        if fields.last().0 == name {
            rest
        } else {
            rest.push(fields.last())
        }
    }
}

/// Whether the values stored by every declared child schema are well
/// formed.
pub open spec fn fields_wf(fields: Seq<(String, AnySchema)>) -> bool
    decreases fields, 2int,
{
    if fields.len() == 0 {
        true
    } else {
        fields_wf(fields.drop_last()) && swf_any(fields.last().1)
    }
}

/// Pointwise reading of [`fields_wf`].
pub broadcast proof fn lemma_fields_wf(s: Seq<(String, AnySchema)>)
    ensures
        #[trigger] fields_wf(s) <==> (forall|i: int|
            0 <= i < s.len() ==> swf_any(#[trigger] s[i].1)),
    decreases s.len(),
{
    if s.len() > 0 {
        lemma_fields_wf(s.drop_last());
        assert(forall|i: int| 0 <= i < s.len() - 1 ==> #[trigger] s.drop_last()[i] == s[i]);
        if fields_wf(s) {
            assert forall|i: int| 0 <= i < s.len() implies swf_any(#[trigger] s[i].1) by {
                if i < s.len() - 1 {
                    assert(swf_any(s.drop_last()[i].1));
                }
            }
        }
    }
}

/// The primitive type a child schema validates toward, when one is
/// inferable: text for the string schemas (plain or transformed), number
/// and boolean for theirs; an optional wrapper delegates to its inner
/// schema; a literal or a nested object has no primitive target.
pub open spec fn target_of(s: AnySchema) -> Option<CoercionTarget>
    decreases s,
{
    match s {
        AnySchema::Text(_) => Some(CoercionTarget::Text),
        AnySchema::Transformed(_) => Some(CoercionTarget::Text),
        AnySchema::Number(_) => Some(CoercionTarget::Number),
        AnySchema::Boolean(_) => Some(CoercionTarget::Boolean),
        AnySchema::Optional(o) => target_of(*o.inner),
        _ => None,
    }
}

/// A primitive type a coercing object steers a raw field value toward.
#[derive(Clone, Copy, PartialEq, Eq, Structural, Debug)]
pub enum CoercionTarget {
    Text,
    Number,
    Boolean,
}

/// Best-effort coercion of a raw field value toward a primitive target:
/// the coerced value where the conversion rules give one, the raw value
/// unchanged otherwise (the child schema then judges it itself).
pub open spec fn coerce_toward(t: CoercionTarget, v: Val) -> Val {
    match t {
        CoercionTarget::Text => match coerce_text(v) {
            Some(text) => Val::Str(text),
            None => v,
        },
        CoercionTarget::Number => match v {
            Val::Num(_) => v,
            Val::Int(i) => Val::Num(num_of_int(i)),
            Val::Bool(b) => Val::Num(num_of_bool(b)),
            Val::Str(text) => match spec_parse_num(text) {
                Some(n) => Val::Num(n),
                None => v,
            },
            _ => v,
        },
        CoercionTarget::Boolean => match truthy(v) {
            Some(b) => Val::Bool(b),
            None => v,
        },
    }
}

/// The value handed to a child schema: one present wrapper removed and,
/// when the object coerces and the child's primitive target is inferable,
/// the best-effort coercion toward that target applied.
pub open spec fn field_input(schema: AnySchema, raw: Val, ocoerce: bool) -> Val {
    let u = unwrap_present(raw);
    if ocoerce {
        match target_of(schema) {
            Some(t) => coerce_toward(t, u),
            None => u,
        }
    } else {
        u
    }
}

/// What validating one declared field against the input mapping returns: a
/// mapping without an entry of that name validates the absent state when
/// the child is optional and records a missing-field error (carrying the
/// object's override) otherwise; an entry present is unwrapped, coerced
/// toward the child's target when the object coerces, and judged by the
/// child schema.
pub open spec fn field_result(
    name: Seq<char>,
    schema: AnySchema,
    entries: Seq<(Seq<char>, Val)>,
    cfg: Option<(Seq<char>, Seq<char>)>,
    ocoerce: bool,
) -> Result<Val, ErrModel>
    decreases schema, 1int,
{
    match lookup(entries, name) {
        None => {
            if schema is Optional {
                spec_validate_any(schema, Val::Absent)
            } else {
                Err(spec_new_error(ErrKind::MissingField { field: name }, cfg))
            }
        },
        Some(raw) => spec_validate_any(schema, field_input(schema, raw, ocoerce)),
    }
}

/// The per-field errors of every declared field, in declaration order.
pub open spec fn field_errors(
    fields: Seq<(String, AnySchema)>,
    entries: Seq<(Seq<char>, Val)>,
    cfg: Option<(Seq<char>, Seq<char>)>,
    ocoerce: bool,
) -> Seq<(Seq<char>, ErrModel)>
    decreases fields, 2int,
{
    if fields.len() == 0 {
        Seq::empty()
    } else {
        let rest = field_errors(fields.drop_last(), entries, cfg, ocoerce);
        match field_result(fields.last().0@, fields.last().1, entries, cfg, ocoerce) {
            Err(e) => rest.push((fields.last().0@, e)),
            Ok(_) => rest,
        }
    }
}

/// The validated outputs of every declared field that passed, in
/// declaration order.
pub open spec fn field_outputs(
    fields: Seq<(String, AnySchema)>,
    entries: Seq<(Seq<char>, Val)>,
    cfg: Option<(Seq<char>, Seq<char>)>,
    ocoerce: bool,
) -> Seq<(Seq<char>, Val)>
    decreases fields, 2int,
{
    if fields.len() == 0 {
        Seq::empty()
    } else {
        let rest = field_outputs(fields.drop_last(), entries, cfg, ocoerce);
        match field_result(fields.last().0@, fields.last().1, entries, cfg, ocoerce) {
            Ok(out) => rest.push((fields.last().0@, out)),
            Err(_) => rest,
        }
    }
}

/// A schema for field mappings: named child schemas of any shape — nested
/// objects included — each validated against its entry, with every field
/// evaluated and the failures aggregated into one object error. A
/// coercing object steers each raw field value toward its child's
/// primitive type first.
pub struct ObjectSchema {
    pub error_config: Option<ErrorConfig>,
    pub fields: Vec<(String, AnySchema)>,
    pub coerce: bool,
}

/// What object validation returns: a non-mapping input fails with a type
/// error; otherwise every declared field is evaluated — none skipped, a
/// missing optional field validating to the absent state — and either all
/// pass, yielding the name-to-output mapping, or the failures are
/// aggregated, in declaration order, into one object error.
pub open spec fn spec_validate_object(s: ObjectSchema, v: Val) -> Result<Val, ErrModel>
    decreases s, 3int,
{
    match v {
        Val::Object(entries) => {
            let errs = field_errors(s.fields@, entries, config_view(s.error_config), s.coerce);
            if errs.len() > 0 {
                Err(spec_new_error(ErrKind::Object { errors: errs }, config_view(s.error_config)))
            } else {
                Ok(
                    Val::Object(
                        field_outputs(s.fields@, entries, config_view(s.error_config), s.coerce),
                    ),
                )
            }
        },
        _ => Err(
            spec_new_error(
                ErrKind::Type { expected: "Object or JSON object"@, got: type_label(v) },
                config_view(s.error_config),
            ),
        ),
    }
}

/// The inferable primitive target of a child schema (see [`target_of`]).
fn expected_target(s: &AnySchema) -> (r: Option<CoercionTarget>)
    ensures
        r == target_of(*s),
    decreases *s,
{
    match s {
        AnySchema::Text(_) => Some(CoercionTarget::Text),
        AnySchema::Transformed(_) => Some(CoercionTarget::Text),
        AnySchema::Number(_) => Some(CoercionTarget::Number),
        AnySchema::Boolean(_) => Some(CoercionTarget::Boolean),
        AnySchema::Optional(o) => {
            proof {
                assert(decreases_to!(*s => *o));
                assert(decreases_to!(*o => o.inner));
            }
            expected_target(&*o.inner)
        },
        _ => None,
    }
}

/// Coerces a raw field value toward a primitive target, best effort (see
/// [`coerce_toward`]).
fn coerce_value(t: CoercionTarget, v: &Value) -> (r: Value)
    requires
        vwf(v@),
    ensures
        r@ == coerce_toward(t, v@),
        vwf(r@),
{
    match t {
        CoercionTarget::Text => match v {
            Value::Int(i) => Value::Str(crate::text::i64_to_string(*i)),
            Value::Num(n) => Value::Str(n.to_text()),
            Value::Bool(b) => Value::Str(
                if *b {
                    String::from_str("true")
                } else {
                    String::from_str("false")
                },
            ),
            _ => v.clone(),
        },
        CoercionTarget::Number => match v {
            Value::Num(_) => v.clone(),
            Value::Int(i) => Value::Num(Num::from_int(*i)),
            Value::Bool(b) => Value::Num(Num::new(false, if *b { 1 } else { 0 }, 0)),
            Value::Str(text) => match parse_num(text.as_str()) {
                Some(n) => Value::Num(n),
                None => v.clone(),
            },
            _ => v.clone(),
        },
        CoercionTarget::Boolean => match v {
            Value::Bool(b) => Value::Bool(*b),
            Value::Int(i) => Value::Bool(*i != 0),
            Value::Num(n) => Value::Bool(!n.is_zero()),
            Value::Str(text) => Value::Bool(!text.as_str().is_empty()),
            Value::Absent => Value::Bool(false),
            Value::Present(_) => Value::Bool(true),
            Value::Array(items) => {
                proof {
                    crate::value::lemma_view_items(items@);
                }
                Value::Bool(items.len() > 0)
            },
            Value::Object(_) => v.clone(),
        },
    }
}

/// Validates a value against an object schema (see
/// [`spec_validate_object`]).
pub fn validate_object(s: &ObjectSchema, value: &Value) -> (r: ValidationResult<Value>)
    requires
        fields_wf(s.fields@),
        vwf(value@),
    ensures
        res_view(r) == spec_validate_object(*s, value@),
        r matches Ok(v) ==> vwf(v@),
    decreases *s, 3int,
{
    let entries = match value {
        Value::Object(entries) => entries,
        _ => {
            return Err(
                ValidationError::new(
                    ErrorType::Type {
                        expected: String::from_str("Object or JSON object"),
                        got: String::from_str(type_label_of(value)),
                    },
                    clone_config(&s.error_config),
                ),
            );
        },
    };
    let ghost entries_v = view_entries(entries@);
    let ghost cfg_v = config_view(s.error_config);
    let mut outs: Vec<(String, Value)> = Vec::new();
    let mut errs: Vec<(String, ValidationError)> = Vec::new();
    let n = s.fields.len();
    let mut i: usize = 0;
    proof {
        assert(s.fields@.take(0) =~= Seq::<(String, AnySchema)>::empty());
        assert(view_entries(outs@) =~= Seq::<(Seq<char>, Val)>::empty());
        assert(view_of_err_entries(errs@) =~= Seq::<(Seq<char>, ErrModel)>::empty());
    }
    while i < n
        invariant
            0 <= i <= n,
            n == s.fields@.len(),
            fields_wf(s.fields@),
            vwf(Val::Object(entries_v)),
            entries_v == view_entries(entries@),
            cfg_v == config_view(s.error_config),
            *value == Value::Object(*entries),
            view_entries(outs@) == field_outputs(
                s.fields@.take(i as int),
                entries_v,
                cfg_v,
                s.coerce,
            ),
            view_of_err_entries(errs@) == field_errors(
                s.fields@.take(i as int),
                entries_v,
                cfg_v,
                s.coerce,
            ),
            vwf_entries(view_entries(outs@)),
        decreases n - i,
    {
        let ghost prefix = s.fields@.take(i as int);
        let ghost prefix1 = s.fields@.take(i as int + 1);
        proof {
            lemma_fields_wf(s.fields@);
            assert(prefix1.drop_last() =~= prefix);
            assert(prefix1.last() == s.fields@[i as int]);
        }
        let name = &s.fields[i].0;
        let child = &s.fields[i].1;
        match crate::value::map_get(entries, name.as_str()) {
            None => {
                let absent_accepted = match child {
                    AnySchema::Optional(_) => true,
                    _ => false,
                };
                if absent_accepted {
                    proof {
                        assert(decreases_to!(*s => s.fields));
                        assert(decreases_to!(s.fields => s.fields@));
                        assert(decreases_to!(s.fields@ => s.fields@[i as int]));
                        assert(decreases_to!(s.fields@[i as int] => s.fields@[i as int].1));
                    }
                    match validate_any(child, &Value::Absent) {
                        Ok(out) => {
                            let ghost outs_old = outs@;
                            outs.push((name.clone(), out));
                            proof {
                                lemma_view_entries(outs@);
                                lemma_view_entries(outs_old);
                                assert(outs@.drop_last() =~= outs_old);
                                assert(view_entries(outs@) =~= view_entries(outs_old).push(
                                    (
                                        name@,
                                        field_result(
                                            name@,
                                            *child,
                                            entries_v,
                                            cfg_v,
                                            s.coerce,
                                        )->Ok_0,
                                    ),
                                ));
                                assert(view_entries(outs@) =~= field_outputs(
                                    prefix1,
                                    entries_v,
                                    cfg_v,
                                    s.coerce,
                                ));
                                lemma_vwf_entries(view_entries(outs@));
                                lemma_vwf_entries(view_entries(outs_old));
                            }
                        },
                        Err(e) => {
                            let ghost ev = e@;
                            let ghost errs_old = errs@;
                            errs.push((name.clone(), e));
                            proof {
                                crate::error::lemma_view_of_err_entries(errs@);
                                crate::error::lemma_view_of_err_entries(errs_old);
                                assert(errs@.drop_last() =~= errs_old);
                                assert(view_of_err_entries(errs@) =~= view_of_err_entries(
                                    errs_old,
                                ).push((name@, ev)));
                                assert(view_of_err_entries(errs@) =~= field_errors(
                                    prefix1,
                                    entries_v,
                                    cfg_v,
                                    s.coerce,
                                ));
                            }
                        },
                    }
                } else {
                    let err = ValidationError::new(
                        ErrorType::MissingField { field: name.clone() },
                        clone_config(&s.error_config),
                    );
                    let ghost errs_old = errs@;
                    errs.push((name.clone(), err));
                    proof {
                        crate::error::lemma_view_of_err_entries(errs@);
                        crate::error::lemma_view_of_err_entries(errs_old);
                        assert(errs@.drop_last() =~= errs_old);
                        assert(view_of_err_entries(errs@) =~= view_of_err_entries(errs_old).push(
                            (name@, err@),
                        ));
                        assert(view_of_err_entries(errs@) =~= field_errors(
                            prefix1,
                            entries_v,
                            cfg_v,
                            s.coerce,
                        ));
                    }
                }
            },
            Some(raw) => {
                let unwrapped: &Value = match raw {
                    Value::Present(x) => &**x,
                    _ => raw,
                };
                proof {
                    crate::value::lemma_lookup_element(entries_v, name@);
                    lemma_vwf_entries(entries_v);
                    let k = choose|k: int|
                        0 <= k < entries_v.len() && #[trigger] entries_v[k] == (name@, raw@);
                    assert(vwf(entries_v[k].1));
                    assert(vwf(raw@));
                    assert(unwrapped@ == unwrap_present(raw@));
                    assert(vwf(unwrapped@));
                }
                let coerced: Option<Value> = if s.coerce {
                    match expected_target(child) {
                        Some(t) => Some(coerce_value(t, unwrapped)),
                        None => None,
                    }
                } else {
                    None
                };
                let handed: &Value = match &coerced {
                    Some(cv) => cv,
                    None => unwrapped,
                };
                proof {
                    assert(handed@ == field_input(*child, raw@, s.coerce));
                    assert(vwf(handed@));
                    assert(decreases_to!(*s => s.fields));
                    assert(decreases_to!(s.fields => s.fields@));
                    assert(decreases_to!(s.fields@ => s.fields@[i as int]));
                    assert(decreases_to!(s.fields@[i as int] => s.fields@[i as int].1));
                }
                match validate_any(child, handed) {
                    Ok(out) => {
                        let ghost outs_old = outs@;
                        outs.push((name.clone(), out));
                        proof {
                            lemma_view_entries(outs@);
                            lemma_view_entries(outs_old);
                            assert(outs@.drop_last() =~= outs_old);
                            assert(view_entries(outs@) =~= view_entries(outs_old).push(
                                (
                                    name@,
                                    field_result(name@, *child, entries_v, cfg_v, s.coerce)->Ok_0,
                                ),
                            ));
                            assert(view_entries(outs@) =~= field_outputs(
                                prefix1,
                                entries_v,
                                cfg_v,
                                s.coerce,
                            ));
                            lemma_vwf_entries(view_entries(outs@));
                            lemma_vwf_entries(view_entries(outs_old));
                        }
                    },
                    Err(e) => {
                        let ghost ev = e@;
                        let ghost errs_old = errs@;
                        errs.push((name.clone(), e));
                        proof {
                            crate::error::lemma_view_of_err_entries(errs@);
                            crate::error::lemma_view_of_err_entries(errs_old);
                            assert(errs@.drop_last() =~= errs_old);
                            assert(view_of_err_entries(errs@) =~= view_of_err_entries(
                                errs_old,
                            ).push((name@, ev)));
                            assert(view_of_err_entries(errs@) =~= field_errors(
                                prefix1,
                                entries_v,
                                cfg_v,
                                s.coerce,
                            ));
                        }
                    },
                }
            },
        }
        i = i + 1;
    }
    proof {
        assert(s.fields@.take(n as int) =~= s.fields@);
    }
    if errs.len() > 0 {
        proof {
            crate::error::lemma_view_of_err_entries(errs@);
        }
        Err(
            ValidationError::new(
                ErrorType::Object { errors: errs },
                clone_config(&s.error_config),
            ),
        )
    } else {
        proof {
            crate::error::lemma_view_of_err_entries(errs@);
        }
        Ok(Value::Object(outs))
    }
}

impl ObjectSchema {
    /// Creates an object schema with no fields.
    pub fn new() -> (r: Self)
        ensures
            r.error_config is None,
            r.fields@ == Seq::<(String, AnySchema)>::empty(),
            !r.coerce,
    {
        ObjectSchema { error_config: None, fields: Vec::new(), coerce: false }
    }

    /// Adds a named field with its child schema. A name already declared
    /// is replaced: its earlier entry leaves the table and the new one
    /// joins at the end.
    pub fn field<S: Schema>(self, name: &str, schema: S) -> (r: Self)
        ensures
            config_view(r.error_config) == config_view(self.error_config),
            r.coerce == self.coerce,
            fields_view(r.fields@) == remove_name(fields_view(self.fields@), name@).push(
                (name@, schema.as_any()),
            ),
    {
        let any = schema.into_any();
        let ghost orig = self.fields@;
        let mut fields = self.fields;
        let mut kept: Vec<(String, AnySchema)> = Vec::new();
        let ghost mut done: int = 0;
        proof {
            assert(fields@ =~= orig.skip(0));
            assert(orig.take(0) =~= Seq::<(String, AnySchema)>::empty());
            assert(fields_view(kept@) =~= remove_name(fields_view(orig.take(0)), name@));
        }
        while fields.len() > 0
            invariant
                0 <= done <= orig.len(),
                fields@ == orig.skip(done),
                fields_view(kept@) == remove_name(fields_view(orig.take(done)), name@),
            decreases fields@.len(),
        {
            let entry = fields.remove(0);
            proof {
                assert(entry == orig[done]);
                assert(fields@ =~= orig.skip(done + 1));
                lemma_fields_view(orig.take(done + 1));
                assert(orig.take(done + 1).drop_last() =~= orig.take(done));
                assert(fields_view(orig.take(done + 1)).drop_last() =~= fields_view(
                    orig.take(done),
                ));
                assert(fields_view(orig.take(done + 1)).last() == (orig[done].0@, orig[done].1));
            }
            if !str_eq(entry.0.as_str(), name) {
                let ghost kept_old = kept@;
                proof {
                    assert(entry.0@ != name@);
                }
                kept.push(entry);
                proof {
                    lemma_fields_view(kept@);
                    lemma_fields_view(kept_old);
                    assert(kept@.drop_last() =~= kept_old);
                    assert(fields_view(kept@) =~= fields_view(kept_old).push(
                        (orig[done].0@, orig[done].1),
                    ));
                }
            }
            proof {
                done = done + 1;
            }
        }
        proof {
            assert(orig.take(done) =~= orig);
        }
        let ghost kept_old = kept@;
        kept.push((String::from_str(name), any));
        proof {
            lemma_fields_view(kept@);
            lemma_fields_view(kept_old);
            assert(kept@.drop_last() =~= kept_old);
            assert(fields_view(kept@) =~= fields_view(kept_old).push((name@, any)));
        }
        ObjectSchema { fields: kept, ..self }
    }

    /// Sets a custom error code and message for the aggregate and for the
    /// missing-field errors this schema itself records.
    pub fn set_message(self, code: &str, message: &str) -> (r: Self)
        ensures
            r.fields@ == self.fields@,
            r.coerce == self.coerce,
            config_view(r.error_config) == Some((code@, message@)),
    {
        ObjectSchema {
            error_config: Some(
                ErrorConfig { code: String::from_str(code), message: String::from_str(message) },
            ),
            ..self
        }
    }

    /// Promotes this schema into one that assembles the validated mapping
    /// into a structured type via the type's external assembler.
    pub fn transform<T: FromFields>(self) -> (r: TransformedObjectSchema<T>)
        ensures
            r.schema == self,
    {
        TransformedObjectSchema { schema: self, _marker: core::marker::PhantomData }
    }

    /// Validates a tree-shaped document: the input must be a mapping whose
    /// entries are scalars, text, booleans or the absent state (a document
    /// null); an entry holding a nested mapping or an array is rejected
    /// outright with a type error, before any field is evaluated.
    pub fn validate_json(&self, value: &Value) -> (r: ValidationResult<Value>)
        requires
            fields_wf(self.fields@),
            vwf(value@),
        ensures
            res_view(r) == spec_validate_json(*self, value@),
            r matches Ok(v) ==> vwf(v@),
    {
        match value {
            Value::Object(entries) => {
                let n = entries.len();
                let mut i: usize = 0;
                while i < n
                    invariant
                        0 <= i <= n,
                        n == entries@.len(),
                        *value == Value::Object(*entries),
                        forall|j: int|
                            0 <= j < i ==> !((#[trigger] view_entries(entries@)[j].1) is Object)
                                && !(view_entries(entries@)[j].1 is Array),
                    decreases n - i,
                {
                    proof {
                        lemma_view_entries(entries@);
                    }
                    let nested = match &entries[i].1 {
                        Value::Object(_) => true,
                        Value::Array(_) => true,
                        _ => false,
                    };
                    if nested {
                        proof {
                            lemma_view_entries(entries@);
                            assert((view_entries(entries@)[i as int].1 is Object) || (view_entries(
                                entries@,
                            )[i as int].1 is Array));
                        }
                        return Err(
                            ValidationError::new(
                                ErrorType::Type {
                                    expected: String::from_str("String, Number, Boolean or Null"),
                                    got: String::from_str("Array or Object"),
                                },
                                clone_config(&self.error_config),
                            ),
                        );
                    }
                    i = i + 1;
                }
                proof {
                    lemma_view_entries(entries@);
                }
                validate_object(self, value)
            },
            _ => Err(
                ValidationError::new(
                    ErrorType::Type {
                        expected: String::from_str("Object"),
                        got: String::from_str("Non-object JSON value"),
                    },
                    clone_config(&self.error_config),
                ),
            ),
        }
    }

    /// Validates a tree-shaped document and assembles the outcome into `T`
    /// via the type's external assembler.
    pub fn validate_json_as<T: FromFields>(&self, value: &Value) -> (r: ValidationResult<T>)
        requires
            fields_wf(self.fields@),
            vwf(value@),
        ensures
            spec_validate_json(*self, value@) matches Err(e) ==> (r matches Err(e2) && e2@ == e),
            r is Ok ==> spec_validate_json(*self, value@) is Ok,
            spec_validate_json(*self, value@) is Ok ==> (r matches Err(e2) ==> e2@
                == assembler_error(config_view(self.error_config))),
    {
        let validated = match self.validate_json(value) {
            Ok(v) => v,
            Err(e) => {
                return Err(e);
            },
        };
        let fields: Vec<(String, Value)> = match validated {
            Value::Object(entries) => entries,
            _ => Vec::new(),
        };
        match T::from_fields(&fields) {
            Some(t) => Ok(t),
            None => Err(
                ValidationError::new(
                    ErrorType::Type {
                        expected: String::from_str("Object with required fields"),
                        got: String::from_str("Object with missing or invalid fields"),
                    },
                    clone_config(&self.error_config),
                ),
            ),
        }
    }
}

impl Schema for ObjectSchema {
    open spec fn spec_validate(&self, v: Val) -> Result<Val, ErrModel> {
        spec_validate_object(*self, v)
    }

    open spec fn swf(&self) -> bool {
        fields_wf(self.fields@)
    }

    open spec fn as_any(&self) -> AnySchema {
        AnySchema::Object(*self)
    }

    fn validate(&self, value: &Value) -> (r: ValidationResult<Value>) {
        validate_object(self, value)
    }

    fn into_any(self) -> (r: AnySchema) {
        AnySchema::Object(self)
    }
}

/// What document validation returns: a non-mapping fails naming the
/// non-object document; a mapping with a nested mapping or array among its
/// entries fails before any field runs; otherwise ordinary object
/// validation decides.
pub open spec fn spec_validate_json(s: ObjectSchema, v: Val) -> Result<Val, ErrModel> {
    match v {
        Val::Object(entries) => {
            if exists|j: int|
                0 <= j < entries.len() && ((#[trigger] entries[j].1) is Object || entries[j].1
                    is Array) {
                Err(
                    spec_new_error(
                        ErrKind::Type {
                            expected: "String, Number, Boolean or Null"@,
                            got: "Array or Object"@,
                        },
                        config_view(s.error_config),
                    ),
                )
            } else {
                spec_validate_object(s, v)
            }
        },
        _ => Err(
            spec_new_error(
                ErrKind::Type { expected: "Object"@, got: "Non-object JSON value"@ },
                config_view(s.error_config),
            ),
        ),
    }
}

/// An object schema that assembles its validated mapping into `T` through
/// the type's external assembler, failing cleanly when the assembler
/// cannot.
pub struct TransformedObjectSchema<T: FromFields> {
    pub schema: ObjectSchema,
    pub _marker: core::marker::PhantomData<T>,
}

impl<T: FromFields> TransformedObjectSchema<T> {
    /// Validates the mapping and assembles the result.
    pub fn validate(&self, value: &Value) -> (r: ValidationResult<T>)
        requires
            fields_wf(self.schema.fields@),
            vwf(value@),
        ensures
            spec_validate_object(self.schema, value@) matches Err(e) ==> (r matches Err(e2) && e2@
                == e),
            r is Ok ==> spec_validate_object(self.schema, value@) is Ok,
            spec_validate_object(self.schema, value@) is Ok ==> (r matches Err(e2) ==> e2@
                == assembler_error(config_view(self.schema.error_config))),
    {
        validate_as_fields(&self.schema, value)
    }
}

/// The error reported when the external assembler cannot build its type
/// from a validated mapping.
pub open spec fn assembler_error(cfg: Option<(Seq<char>, Seq<char>)>) -> ErrModel {
    spec_new_error(
        ErrKind::Type {
            expected: "Object with required fields"@,
            got: "Object with missing or invalid fields"@,
        },
        cfg,
    )
}

/// Validates a mapping with an object schema and assembles the outcome
/// into `T`; validation errors pass through, and an assembler refusal is a
/// structural type error.
pub fn validate_as_fields<T: FromFields>(s: &ObjectSchema, value: &Value) -> (r: ValidationResult<
    T,
>)
    requires
        fields_wf(s.fields@),
        vwf(value@),
    ensures
        spec_validate_object(*s, value@) matches Err(e) ==> (r matches Err(e2) && e2@ == e),
        r is Ok ==> spec_validate_object(*s, value@) is Ok,
        spec_validate_object(*s, value@) is Ok ==> (r matches Err(e2) ==> e2@ == assembler_error(
            config_view(s.error_config),
        )),
{
    let validated = match validate_object(s, value) {
        Ok(v) => v,
        Err(e) => {
            return Err(e);
        },
    };
    let fields: Vec<(String, Value)> = match validated {
        Value::Object(entries) => entries,
        _ => Vec::new(),
    };
    match T::from_fields(&fields) {
        Some(t) => Ok(t),
        None => Err(
            ValidationError::new(
                ErrorType::Type {
                    expected: String::from_str("Object with required fields"),
                    got: String::from_str("Object with missing or invalid fields"),
                },
                clone_config(&s.error_config),
            ),
        ),
    }
}

impl ValidateAs for ObjectSchema {
    open spec fn wf(&self) -> bool {
        fields_wf(self.fields@)
    }

    open spec fn spec_validate_map(&self, v: Val) -> Result<Val, ErrModel> {
        spec_validate_object(*self, v)
    }

    open spec fn assembly_error(&self) -> ErrModel {
        assembler_error(config_view(self.error_config))
    }

    fn validate_as<T: FromFields>(&self, value: &Value) -> (r: ValidationResult<T>) {
        validate_as_fields(self, value)
    }
}

} // verus!
