use vstd::prelude::*;
use crate::error::{spec_new_error, ErrKind};
use crate::schema::boolean::{truthy, BooleanSchema};
use crate::schema::number::NumberSchema;
use crate::schema::object::{field_errors, field_result};
use crate::schema::optional::{spec_validate_opt, OptionalSchema};
use crate::schema::string::{accepted_text, StringSchema};
use crate::schema::transform::{apply_transform, apply_transforms, Transform};
use crate::schema::{AnySchema, Schema};
use crate::value::Val;

verus! {

/// A string schema without coercion rejects a value of any other type with
/// the type category, whatever its other constraints say; validation takes
/// the input by reference and never changes it.
pub proof fn lemma_strict_string_type_error(s: StringSchema, v: Val)
    requires
        !s.coerce,
        !(v is Str),
    ensures
        s.spec_validate(v) matches Err(e) && e.kind is Type,
{
}

/// A number schema without coercion rejects a value of any other type with
/// the type category.
pub proof fn lemma_strict_number_type_error(s: NumberSchema, v: Val)
    requires
        !s.coerce,
        !(v is Num),
    ensures
        s.spec_validate(v) matches Err(e) && e.kind is Type,
{
}

/// A boolean schema without coercion rejects a value of any other type
/// with the type category.
pub proof fn lemma_strict_boolean_type_error(s: BooleanSchema, v: Val)
    requires
        !s.coerce,
        !(v is Bool),
    ensures
        s.spec_validate(v) matches Err(e) && e.kind is Type,
{
}

/// Every transform step maps a boolean to a boolean.
proof fn lemma_transforms_keep_bool(ts: Seq<Transform>, b: bool)
    ensures
        apply_transforms(ts, Val::Bool(b)) is Bool,
    decreases ts.len(),
{
    if ts.len() > 0 {
        lemma_transforms_keep_bool(ts.drop_first(), apply_transform(ts[0], Val::Bool(b))->Bool_0);
    }
}

/// Every transform step other than the two boolean-valued tests maps a
/// number to a number.
proof fn lemma_transforms_keep_num(ts: Seq<Transform>, n: crate::decimal::Num)
    requires
        forall|i: int|
            0 <= i < ts.len() ==> #[trigger] ts[i] != Transform::Positive && ts[i]
                != Transform::Presence,
    ensures
        apply_transforms(ts, Val::Num(n)) is Num,
    decreases ts.len(),
{
    if ts.len() > 0 {
        assert(ts[0] != Transform::Positive && ts[0] != Transform::Presence);
        lemma_transforms_keep_num(ts.drop_first(), apply_transform(ts[0], Val::Num(n))->Num_0);
        assert(forall|i: int|
            0 <= i < ts.drop_first().len() ==> #[trigger] ts.drop_first()[i] == ts[i + 1]);
    }
}

/// The output of a successful coercion-enabled boolean validation is
/// already a boolean: validating it again succeeds, even with coercion
/// turned off, so no further coercion happens.
pub proof fn lemma_boolean_revalidation(s: BooleanSchema, v: Val)
    requires
        s.coerce,
        s.spec_validate(v) is Ok,
    ensures
        s.spec_validate(s.spec_validate(v)->Ok_0) is Ok,
        (BooleanSchema { coerce: false, ..s }).spec_validate(s.spec_validate(v)->Ok_0) is Ok,
{
    let out = s.spec_validate(v)->Ok_0;
    match v {
        Val::Bool(b) => lemma_transforms_keep_bool(s.transforms@, b),
        _ => {
            let b = truthy(v)->0;
            lemma_transforms_keep_bool(s.transforms@, b);
        },
    }
    lemma_transforms_keep_bool(s.transforms@, out->Bool_0);
}

/// The output of a successful coercion-enabled number validation is
/// already a number — provided no transform step replaced it by a boolean
/// test — so validating it again succeeds without further coercion.
pub proof fn lemma_number_revalidation(s: NumberSchema, v: Val)
    requires
        s.coerce,
        s.spec_validate(v) is Ok,
        forall|i: int|
            0 <= i < s.transforms@.len() ==> #[trigger] s.transforms@[i] != Transform::Positive
                && s.transforms@[i] != Transform::Presence,
    ensures
        s.spec_validate(s.spec_validate(v)->Ok_0) is Ok,
        (NumberSchema { coerce: false, ..s }).spec_validate(s.spec_validate(v)->Ok_0) is Ok,
{
    let out = s.spec_validate(v)->Ok_0;
    match v {
        Val::Num(n) => lemma_transforms_keep_num(s.transforms@, n),
        Val::Int(i) => lemma_transforms_keep_num(s.transforms@, crate::schema::number::num_of_int(i)),
        Val::Str(t) => lemma_transforms_keep_num(s.transforms@, crate::decimal::spec_parse_num(t)->0),
        Val::Bool(b) => lemma_transforms_keep_num(s.transforms@, crate::schema::number::num_of_bool(b)),
        _ => {},
    }
    lemma_transforms_keep_num(s.transforms@, out->Num_0);
}

/// The output of a successful coercion-enabled string validation is the
/// accepted text itself: validating it again succeeds without further
/// coercion, under the same constraints.
pub proof fn lemma_string_revalidation(s: StringSchema, v: Val)
    requires
        s.coerce,
        s.spec_validate(v) is Ok,
    ensures
        s.spec_validate(s.spec_validate(v)->Ok_0) == s.spec_validate(v),
        (StringSchema { coerce: false, ..s }).spec_validate(s.spec_validate(v)->Ok_0)
            == s.spec_validate(v),
{
}

/// Truthiness coercion to boolean on a schema without transforms: the
/// empty string, a zero of either numeric shape, the empty array, and the
/// absent state validate to false; every other non-boolean value with a
/// truthiness — any non-empty string (including the text `false`), any
/// nonzero number, any non-empty array, and any present wrapper —
/// validates to true. A boolean needs no coercion and passes as itself.
pub proof fn lemma_boolean_truthiness(s: BooleanSchema, v: Val)
    requires
        s.coerce,
        s.transforms@.len() == 0,
        !(v is Object),
        !(v is Bool),
    ensures
        s.spec_validate(v) == Ok::<Val, crate::error::ErrModel>(Val::Bool(truthy(v)->0)),
        truthy(v)->0 == !(v == Val::Str(Seq::<char>::empty()) || v == Val::Int(0) || (v matches
            Val::Num(n)
            && n.spec_is_zero()) || v == Val::Absent || (v matches Val::Array(a) && a.len() == 0)),
{
    assert(s.spec_validate(v) == Ok::<Val, crate::error::ErrModel>(Val::Bool(truthy(v)->0)));
    if v is Str && v->Str_0.len() == 0 {
        assert(v->Str_0 =~= Seq::<char>::empty());
    }
}

/// String length bounds are checked before the pattern: text shorter than
/// the minimum reports the minimum-length category even when it would also
/// fail the pattern.
pub proof fn lemma_length_before_pattern(s: StringSchema, v: Val)
    requires
        accepted_text(s.coerce, v) is Some,
        s.min_length is Some,
        accepted_text(s.coerce, v)->0.len() < s.min_length->0,
    ensures
        s.spec_validate(v) matches Err(e) && e.kind is MinLength,
{
}

/// Transform chains compose left to right: extending a chain by a second
/// chain applies the first chain, then the second, so a schema transformed
/// by `f` and then by `g` maps `x` to `g(f(x))`.
pub proof fn lemma_transforms_compose(ts1: Seq<Transform>, ts2: Seq<Transform>, v: Val)
    ensures
        apply_transforms(ts1 + ts2, v) == apply_transforms(ts2, apply_transforms(ts1, v)),
    decreases ts1.len(),
{
    if ts1.len() == 0 {
        assert(ts1 + ts2 =~= ts2);
    } else {
        assert((ts1 + ts2).drop_first() =~= ts1.drop_first() + ts2);
        lemma_transforms_compose(ts1.drop_first(), ts2, apply_transform(ts1[0], v));
    }
}

/// Two chained transform steps apply in declared order: `f` first, then
/// `g`.
pub proof fn lemma_two_transforms_in_order(f: Transform, g: Transform, v: Val)
    ensures
        apply_transforms(seq![f, g], v) == apply_transform(g, apply_transform(f, v)),
{
    reveal_with_fuel(apply_transforms, 3);
    lemma_transforms_compose(seq![f], seq![g], v);
    assert(seq![f] + seq![g] =~= seq![f, g]);
    assert(seq![f].drop_first() =~= Seq::<Transform>::empty());
    assert(seq![g].drop_first() =~= Seq::<Transform>::empty());
    assert(seq![f][0] == f);
    assert(seq![g][0] == g);
    assert(apply_transforms(seq![f], v) == apply_transform(f, v));
    assert(apply_transforms(seq![g], apply_transform(f, v)) == apply_transform(
        g,
        apply_transform(f, v),
    ));
}

/// Object validation is exhaustive: with distinct field names, the
/// aggregate's detail carries an entry for a declared field exactly when
/// that field fails — no failure is dropped for an earlier one, and no
/// passing field appears.
pub proof fn lemma_object_exhaustive(
    fields: Seq<(String, AnySchema)>,
    entries: Seq<(Seq<char>, Val)>,
    cfg: Option<(Seq<char>, Seq<char>)>,
    oc: bool,
)
    requires
        forall|j1: int, j2: int|
            0 <= j1 < j2 < fields.len() ==> (#[trigger] fields[j1].0)@ != (#[trigger] fields[j2].0)@,
    ensures
        forall|j: int|
            0 <= j < fields.len() ==> ((#[trigger] field_result(
                fields[j].0@,
                fields[j].1,
                entries,
                cfg,
                oc,
            )) is Err <==> exists|k: int|
                0 <= k < field_errors(fields, entries, cfg, oc).len() && (#[trigger] field_errors(
                    fields,
                    entries,
                    cfg,
                    oc,
                )[k]).0 == fields[j].0@),
    decreases fields.len(),
{
    if fields.len() > 0 {
        lemma_object_exhaustive(fields.drop_last(), entries, cfg, oc);
        let prev = field_errors(fields.drop_last(), entries, cfg, oc);
        let all = field_errors(fields, entries, cfg, oc);
        lemma_field_errors_names(fields.drop_last(), entries, cfg, oc);
        assert forall|j: int| 0 <= j < fields.len() implies ((#[trigger] field_result(
            fields[j].0@,
            fields[j].1,
            entries,
            cfg,
            oc,
        )) is Err <==> exists|k: int|
            0 <= k < all.len() && (#[trigger] all[k]).0 == fields[j].0@) by {
            let name = fields[j].0@;
            let last = fields.len() - 1;
            if j < last {
                assert(fields.drop_last()[j] == fields[j]);
                if field_result(name, fields[j].1, entries, cfg, oc) is Err {
                    let k = choose|k: int| 0 <= k < prev.len() && (#[trigger] prev[k]).0 == name;
                    assert(all[k].0 == name);
                } else {
                    if exists|k: int| 0 <= k < all.len() && (#[trigger] all[k]).0 == name {
                        let k = choose|k: int| 0 <= k < all.len() && (#[trigger] all[k]).0 == name;
                        if k < prev.len() {
                            assert(prev[k].0 == name);
                        } else {
                            assert(all[k].0 == fields[last].0@);
                            assert(fields[j].0@ != fields[last].0@);
                        }
                    }
                }
            } else {
                if field_result(name, fields[j].1, entries, cfg, oc) is Err {
                    assert(all[all.len() - 1].0 == name);
                } else {
                    if exists|k: int| 0 <= k < all.len() && (#[trigger] all[k]).0 == name {
                        let k = choose|k: int| 0 <= k < all.len() && (#[trigger] all[k]).0 == name;
                        assert(prev[k].0 == name);
                        let j2 = choose|j2: int|
                            0 <= j2 < fields.drop_last().len() && (#[trigger] fields.drop_last()[j2]).0@
                                == name;
                        assert(fields[j2].0@ == fields[last].0@);
                    }
                }
            }
        }
    }
}

/// Every name in the aggregate's detail names one of the declared fields.
proof fn lemma_field_errors_names(
    fields: Seq<(String, AnySchema)>,
    entries: Seq<(Seq<char>, Val)>,
    cfg: Option<(Seq<char>, Seq<char>)>,
    oc: bool,
)
    ensures
        forall|k: int|
            0 <= k < field_errors(fields, entries, cfg, oc).len() ==> exists|j: int|
                0 <= j < fields.len() && (#[trigger] field_errors(fields, entries, cfg, oc)[k]).0 == (
                #[trigger] fields[j]).0@,
    decreases fields.len(),
{
    if fields.len() > 0 {
        lemma_field_errors_names(fields.drop_last(), entries, cfg, oc);
        let prev = field_errors(fields.drop_last(), entries, cfg, oc);
        let all = field_errors(fields, entries, cfg, oc);
        assert forall|k: int| 0 <= k < all.len() implies exists|j: int|
            0 <= j < fields.len() && (#[trigger] all[k]).0 == (#[trigger] fields[j]).0@ by {
            if k < prev.len() {
                assert(all[k] == prev[k]);
                let j = choose|j: int|
                    0 <= j < fields.drop_last().len() && prev[k].0 == (#[trigger] fields.drop_last(
                    )[j]).0@;
                assert(all[k].0 == fields[j].0@);
            } else {
                assert(all[k].0 == fields[fields.len() - 1].0@);
            }
        }
    }
}

/// A required (non-optional) field absent from the mapping always fails
/// with the missing-field category, so the aggregate's detail names it.
pub proof fn lemma_missing_field_recorded(
    name: Seq<char>,
    schema: AnySchema,
    entries: Seq<(Seq<char>, Val)>,
    cfg: Option<(Seq<char>, Seq<char>)>,
    oc: bool,
)
    requires
        crate::value::lookup(entries, name) is None,
        !(schema is Optional),
    ensures
        field_result(name, schema, entries, cfg, oc) matches Err(e) && e.kind is MissingField,
{
}

/// An optional field absent from the mapping is valid, not an error: the
/// field validates to the absent state, whatever the inner schema and the
/// object's settings.
pub proof fn lemma_missing_optional_accepted(
    name: Seq<char>,
    o: crate::schema::optional::OptionalSchema,
    entries: Seq<(Seq<char>, Val)>,
    cfg: Option<(Seq<char>, Seq<char>)>,
    oc: bool,
)
    requires
        crate::value::lookup(entries, name) is None,
    ensures
        field_result(name, AnySchema::Optional(o), entries, cfg, oc) == Ok::<
            Val,
            crate::error::ErrModel,
        >(Val::Absent),
{
}

/// A custom error override replaces the code and the message of every
/// error built with it, verbatim, but never alters which failure category
/// was recorded: the category stays inspectable for branching.
pub proof fn lemma_override_keeps_kind(kind: ErrKind, cfg: (Seq<char>, Seq<char>))
    ensures
        spec_new_error(kind, Some(cfg)).kind == kind,
        spec_new_error(kind, Some(cfg)).code == cfg.0,
        spec_new_error(kind, Some(cfg)).message == cfg.1,
        spec_new_error(kind, None).kind == kind,
{
}

/// The optional wrapper accepts the absent state outright, whatever the
/// inner schema and its constraints: no inner check ever fires for an
/// absent value.
pub proof fn lemma_optional_absent(o: OptionalSchema)
    ensures
        spec_validate_opt(o, Val::Absent) == Ok::<Val, crate::error::ErrModel>(Val::Absent),
{
}

} // verus!
