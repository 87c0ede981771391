use vstd::prelude::*;
use crate::value::{vwf, Val, Value};
use crate::decimal::{spec_double, spec_round};
use crate::text::{lower_of, lowercase, trim, trim_of, upper_of, uppercase};

verus! {

/// One step of a transform chain: a pure value-to-value operation, applied
/// after successful validation. A step aimed at another shape leaves the
/// value unchanged.
pub enum Transform {
    /// Strips leading and trailing whitespace from text.
    Trim,
    /// Lowercases text.
    Lowercase,
    /// Uppercases text.
    Uppercase,
    /// Replaces text by its character count.
    Length,
    /// Rounds a number to the nearest integer, halves away from zero.
    Round,
    /// Doubles a number.
    Double,
    /// Negates a boolean.
    Not,
    /// Replaces a number by whether it is strictly positive.
    Positive,
    /// Replaces a value by whether it is present: the absent state becomes
    /// false, every other value true.
    Presence,
}

/// What one transform step does to a value. The presence test reads the
/// whole value; every other step acts on the matching shape, maps itself
/// under a present wrapper, and leaves any other value unchanged.
pub open spec fn apply_transform(t: Transform, v: Val) -> Val
    decreases v,
{
    match (t, v) {
        (Transform::Presence, x) => Val::Bool(!(x is Absent)),
        (Transform::Trim, Val::Str(s)) => Val::Str(trim_of(s)),
        (Transform::Lowercase, Val::Str(s)) => Val::Str(lower_of(s)),
        (Transform::Uppercase, Val::Str(s)) => Val::Str(upper_of(s)),
        (Transform::Length, Val::Str(s)) => if s.len() > i64::MAX {
            Val::Int(i64::MAX as int)
        } else {
            Val::Int(s.len() as int)
        },
        (Transform::Round, Val::Num(n)) => Val::Num(spec_round(n)),
        (Transform::Double, Val::Num(n)) => Val::Num(spec_double(n)),
        (Transform::Not, Val::Bool(b)) => Val::Bool(!b),
        (Transform::Positive, Val::Num(n)) => Val::Bool(n.spec_is_positive()),
        (step, Val::Present(x)) => Val::Present(Box::new(apply_transform(step, *x))),
        (_, other) => other,
    }
}

/// What a chain of transform steps does to a value: each step applied in
/// declared order, none skipped.
pub open spec fn apply_transforms(ts: Seq<Transform>, v: Val) -> Val
    decreases ts.len(),
{
    if ts.len() == 0 {
        v
    } else {
        apply_transforms(ts.drop_first(), apply_transform(ts[0], v))
    }
}

/// Runs one transform step.
pub fn run_transform(t: &Transform, v: Value) -> (r: Value)
    requires
        vwf(v@),
    ensures
        r@ == apply_transform(*t, v@),
        vwf(r@),
    decreases v,
{
    match (t, v) {
        (Transform::Presence, other) => match other {
            Value::Absent => Value::Bool(false),
            _ => Value::Bool(true),
        },
        (Transform::Trim, Value::Str(s)) => Value::Str(trim(s.as_str())),
        (Transform::Lowercase, Value::Str(s)) => Value::Str(lowercase(s.as_str())),
        (Transform::Uppercase, Value::Str(s)) => Value::Str(uppercase(s.as_str())),
        (Transform::Length, Value::Str(s)) => {
            let len: u64 = s.as_str().unicode_len() as u64;
            if len > i64::MAX as u64 {
                Value::Int(i64::MAX)
            } else {
                Value::Int(len as i64)
            }
        },
        (Transform::Round, Value::Num(n)) => Value::Num(n.round()),
        (Transform::Double, Value::Num(n)) => Value::Num(n.double()),
        (Transform::Not, Value::Bool(b)) => Value::Bool(!b),
        (Transform::Positive, Value::Num(n)) => Value::Bool(n.is_positive()),
        (step, Value::Present(x)) => Value::Present(Box::new(run_transform(step, *x))),
        (_, other) => other,
    }
}

/// Runs a chain of transform steps in declared order.
pub fn run_transforms(ts: &Vec<Transform>, v: Value) -> (r: Value)
    requires
        vwf(v@),
    ensures
        r@ == apply_transforms(ts@, v@),
        vwf(r@),
{
    let ghost v0 = v@;
    let mut acc = v;
    let n = ts.len();
    let mut i: usize = 0;
    proof {
        assert(ts@.skip(0) =~= ts@);
    }
    while i < n
        invariant
            0 <= i <= n,
            n == ts@.len(),
            vwf(acc@),
            apply_transforms(ts@.skip(i as int), acc@) == apply_transforms(ts@, v0),
        decreases n - i,
    {
        proof {
            assert(ts@.skip(i as int)[0] == ts@[i as int]);
            assert(ts@.skip(i as int).drop_first() =~= ts@.skip(i as int + 1));
        }
        acc = run_transform(&ts[i], acc);
        i = i + 1;
    }
    proof {
        assert(ts@.skip(n as int) =~= Seq::<Transform>::empty());
    }
    acc
}

} // verus!
