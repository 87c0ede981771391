use vstd::prelude::*;
use crate::decimal::Num;
use crate::text::{int_str, str_eq};
use crate::decimal::num_dbg_str;

verus! {

/// A runtime-typed value: what schemas validate.
///
/// The closed set of shapes the engine accepts: text, integers, decimals
/// (standing for the usual floating-point numbers), booleans, an explicit
/// absent state, an explicitly present wrapper, a named-field mapping, and
/// an array (arrays appear in tree-shaped documents and are rejected by the
/// object schema's normalization).
#[derive(Debug)]
pub enum Value {
    Str(String),
    Int(i64),
    Num(Num),
    Bool(bool),
    Absent,
    Present(Box<Value>),
    Object(Vec<(String, Value)>),
    Array(Vec<Value>),
}

/// The mathematical model of a [`Value`]: strings become character
/// sequences, vectors become sequences.
pub enum Val {
    Str(Seq<char>),
    Int(int),
    Num(Num),
    Bool(bool),
    Absent,
    Present(Box<Val>),
    Object(Seq<(Seq<char>, Val)>),
    Array(Seq<Val>),
}

/// The model of a value.
pub open spec fn view_of(v: Value) -> Val
    decreases v,
{
    match v {
        Value::Str(s) => Val::Str(s@),
        Value::Int(i) => Val::Int(i as int),
        Value::Num(n) => Val::Num(n),
        Value::Bool(b) => Val::Bool(b),
        Value::Absent => Val::Absent,
        Value::Present(inner) => Val::Present(Box::new(view_of(*inner))),
        Value::Object(entries) => Val::Object(view_entries(entries@)),
        Value::Array(items) => Val::Array(view_items(items@)),
    }
}

/// The models of a mapping's entries, in order.
pub open spec fn view_entries(s: Seq<(String, Value)>) -> Seq<(Seq<char>, Val)>
    decreases s,
{
    if s.len() == 0 {
        Seq::empty()
    } else {
        view_entries(s.drop_last()).push((s.last().0@, view_of(s.last().1)))
    }
}

/// The models of an array's items, in order.
pub open spec fn view_items(s: Seq<Value>) -> Seq<Val>
    decreases s,
{
    if s.len() == 0 {
        Seq::empty()
    } else {
        view_items(s.drop_last()).push(view_of(s.last()))
    }
}

impl View for Value {
    type V = Val;

    open spec fn view(&self) -> Val {
        view_of(*self)
    }
}

pub broadcast proof fn lemma_view_entries(s: Seq<(String, Value)>)
    ensures
        (#[trigger] view_entries(s)).len() == s.len(),
        forall|i: int|
            0 <= i < s.len() ==> #[trigger] view_entries(s)[i] == (s[i].0@, view_of(s[i].1)),
    decreases s,
{
    if s.len() > 0 {
        lemma_view_entries(s.drop_last());
    }
}

pub broadcast proof fn lemma_view_items(s: Seq<Value>)
    ensures
        (#[trigger] view_items(s)).len() == s.len(),
        forall|i: int| 0 <= i < s.len() ==> #[trigger] view_items(s)[i] == view_of(s[i]),
    decreases s,
{
    if s.len() > 0 {
        lemma_view_items(s.drop_last());
    }
}

/// Well-formed values: every decimal in them is canonical.
pub open spec fn vwf(v: Val) -> bool
    decreases v,
{
    match v {
        Val::Num(n) => n.wf(),
        Val::Present(inner) => vwf(*inner),
        Val::Object(entries) => vwf_entries(entries),
        Val::Array(items) => vwf_items(items),
        _ => true,
    }
}

pub open spec fn vwf_entries(s: Seq<(Seq<char>, Val)>) -> bool
    decreases s,
{
    if s.len() == 0 {
        true
    } else {
        vwf_entries(s.drop_last()) && vwf(s.last().1)
    }
}

pub open spec fn vwf_items(s: Seq<Val>) -> bool
    decreases s,
{
    if s.len() == 0 {
        true
    } else {
        vwf_items(s.drop_last()) && vwf(s.last())
    }
}

/// The label this library uses for a value's runtime type in error
/// messages. The absent state has no type of its own and reads "Unknown".
pub open spec fn type_label(v: Val) -> Seq<char> {
    match v {
        Val::Str(_) => "String"@,
        Val::Int(_) => "Integer"@,
        Val::Num(_) => "Float"@,
        Val::Bool(_) => "Boolean"@,
        Val::Absent => "Unknown"@,
        Val::Present(_) => "Option"@,
        Val::Object(_) => "Object"@,
        Val::Array(_) => "Array"@,
    }
}

/// The label for a value's runtime type, as used in error messages.
pub fn type_label_of(v: &Value) -> (r: &'static str)
    ensures
        r@ == type_label(v@),
{
    match v {
        Value::Str(_) => "String",
        Value::Int(_) => "Integer",
        Value::Num(_) => "Float",
        Value::Bool(_) => "Boolean",
        Value::Absent => "Unknown",
        Value::Present(_) => "Option",
        Value::Object(_) => "Object",
        Value::Array(_) => "Array",
    }
}

/// The first entry of `entries` named `name`, if any.
pub open spec fn lookup(entries: Seq<(Seq<char>, Val)>, name: Seq<char>) -> Option<Val>
    decreases entries.len(),
{
    if entries.len() == 0 {
        None
    } else if entries[0].0 == name {
        Some(entries[0].1)
    } else {
        lookup(entries.drop_first(), name)
    }
}

/// Finds the first entry of a field mapping with the given name.
pub fn map_get<'a>(entries: &'a Vec<(String, Value)>, name: &str) -> (r: Option<&'a Value>)
    ensures
        match r {
            Some(v) => lookup(view_entries(entries@), name@) == Some(v@),
            None => lookup(view_entries(entries@), name@) is None,
        },
{
    let n = entries.len();
    let mut i: usize = 0;
    proof {
        assert(view_entries(entries@).skip(0) =~= view_entries(entries@));
    }
    while i < n
        invariant
            0 <= i <= n,
            n == entries@.len(),
            lookup(view_entries(entries@), name@) == lookup(
                view_entries(entries@).skip(i as int),
                name@,
            ),
        decreases n - i,
    {
        proof {
            lemma_view_entries(entries@);
            assert(view_entries(entries@).skip(i as int)[0] == view_entries(entries@)[i as int]);
        }
        if str_eq(entries[i].0.as_str(), name) {
            return Some(&entries[i].1);
        }
        proof {
            assert(view_entries(entries@).skip(i as int).drop_first() =~= view_entries(
                entries@,
            ).skip(i as int + 1));
        }
        i = i + 1;
    }
    proof {
        lemma_view_entries(entries@);
        assert(view_entries(entries@).skip(n as int) =~= Seq::empty());
    }
    None
}

impl Clone for Value {
    /// A deep copy with the same model.
    fn clone(&self) -> (r: Self)
        ensures
            r@ == self@,
        decreases *self,
    {
        match self {
            Value::Str(s) => Value::Str(s.clone()),
            Value::Int(i) => Value::Int(*i),
            Value::Num(n) => Value::Num(*n),
            Value::Bool(b) => Value::Bool(*b),
            Value::Absent => Value::Absent,
            Value::Present(inner) => Value::Present(Box::new((**inner).clone())),
            Value::Object(entries) => {
                let n = entries.len();
                let mut out: Vec<(String, Value)> = Vec::new();
                let mut i: usize = 0;
                while i < n
                    invariant
                        0 <= i <= n,
                        n == entries@.len(),
                        *self == Value::Object(*entries),
                        out@.len() == i,
                        forall|j: int|
                            0 <= j < i ==> #[trigger] out@[j].0@ == entries@[j].0@ && view_of(
                                out@[j].1,
                            ) == view_of(entries@[j].1),
                    decreases n - i,
                {
                    proof {
                        assert(decreases_to!(*self => (*self)->Object_0));
                        assert(decreases_to!(*entries => entries@));
                        assert(decreases_to!(entries@ => entries@[i as int]));
                        assert(decreases_to!(entries@[i as int] => entries@[i as int].1));
                    }
                    let name = entries[i].0.clone();
                    let val = entries[i].1.clone();
                    out.push((name, val));
                    i = i + 1;
                }
                proof {
                    lemma_view_entries(entries@);
                    lemma_view_entries(out@);
                    assert(view_entries(out@) =~= view_entries(entries@));
                }
                Value::Object(out)
            },
            Value::Array(items) => {
                let n = items.len();
                let mut out: Vec<Value> = Vec::new();
                let mut i: usize = 0;
                while i < n
                    invariant
                        0 <= i <= n,
                        n == items@.len(),
                        *self == Value::Array(*items),
                        out@.len() == i,
                        forall|j: int|
                            0 <= j < i ==> #[trigger] view_of(out@[j]) == view_of(items@[j]),
                    decreases n - i,
                {
                    proof {
                        assert(decreases_to!(*self => (*self)->Array_0));
                        assert(decreases_to!(*items => items@));
                        assert(decreases_to!(items@ => items@[i as int]));
                    }
                    let val = items[i].clone();
                    out.push(val);
                    i = i + 1;
                }
                proof {
                    lemma_view_items(items@);
                    lemma_view_items(out@);
                    assert(view_items(out@) =~= view_items(items@));
                }
                Value::Array(out)
            },
        }
    }
}

/// A found entry is one of the mapping's elements.
pub proof fn lemma_lookup_element(entries: Seq<(Seq<char>, Val)>, name: Seq<char>)
    ensures
        lookup(entries, name) matches Some(v) ==> exists|i: int|
            0 <= i < entries.len() && #[trigger] entries[i] == (name, v),
    decreases entries.len(),
{
    if entries.len() > 0 && entries[0].0 != name {
        lemma_lookup_element(entries.drop_first(), name);
        if lookup(entries, name) is Some {
            let v = lookup(entries, name)->0;
            let i = choose|i: int|
                0 <= i < entries.drop_first().len() && #[trigger] entries.drop_first()[i] == (
                    name,
                    v,
                );
            assert(entries[i + 1] == (name, v));
        }
    }
}

/// Structural equality of two values, compared deeply.
pub fn value_eq(a: &Value, b: &Value) -> (r: bool)
    ensures
        r == (a@ == b@),
    decreases *a,
{
    match (a, b) {
        (Value::Str(x), Value::Str(y)) => str_eq(x.as_str(), y.as_str()),
        (Value::Int(x), Value::Int(y)) => x == y,
        (Value::Num(x), Value::Num(y)) => x == y,
        (Value::Bool(x), Value::Bool(y)) => x == y,
        (Value::Absent, Value::Absent) => true,
        (Value::Present(x), Value::Present(y)) => value_eq(x, y),
        (Value::Object(xs), Value::Object(ys)) => {
            proof {
                lemma_view_entries(xs@);
                lemma_view_entries(ys@);
            }
            if xs.len() != ys.len() {
                return false;
            }
            let n = xs.len();
            let mut i: usize = 0;
            while i < n
                invariant
                    0 <= i <= n,
                    n == xs@.len() == ys@.len(),
                    *a == Value::Object(*xs),
                    *b == Value::Object(*ys),
                    forall|j: int| 0 <= j < i ==> #[trigger] xs@[j].0@ == ys@[j].0@,
                    forall|j: int|
                        0 <= j < i ==> #[trigger] view_of(xs@[j].1) == view_of(ys@[j].1),
                decreases n - i,
            {
                proof {
                    lemma_view_entries(xs@);
                    lemma_view_entries(ys@);
                }
                if !str_eq(xs[i].0.as_str(), ys[i].0.as_str()) {
                    proof {
                        assert(view_entries(xs@)[i as int].0 != view_entries(ys@)[i as int].0);
                        assert(view_entries(xs@) != view_entries(ys@));
                    }
                    return false;
                }
                proof {
                    assert(decreases_to!(*a => (*a)->Object_0));
                    assert(decreases_to!(*xs => xs@));
                    assert(decreases_to!(xs@ => xs@[i as int]));
                    assert(decreases_to!(xs@[i as int] => xs@[i as int].1));
                }
                if !value_eq(&xs[i].1, &ys[i].1) {
                    proof {
                        assert(view_entries(xs@)[i as int].1 != view_entries(ys@)[i as int].1);
                        assert(view_entries(xs@) != view_entries(ys@));
                    }
                    return false;
                }
                proof {
                    assert(xs@[i as int].0@ == ys@[i as int].0@);
                    assert(view_of(xs@[i as int].1) == view_of(ys@[i as int].1));
                }
                i = i + 1;
            }
            proof {
                lemma_view_entries(xs@);
                lemma_view_entries(ys@);
                assert(view_entries(xs@) =~= view_entries(ys@));
            }
            true
        },
        (Value::Array(xs), Value::Array(ys)) => {
            proof {
                lemma_view_items(xs@);
                lemma_view_items(ys@);
            }
            if xs.len() != ys.len() {
                return false;
            }
            let n = xs.len();
            let mut i: usize = 0;
            while i < n
                invariant
                    0 <= i <= n,
                    n == xs@.len() == ys@.len(),
                    *a == Value::Array(*xs),
                    *b == Value::Array(*ys),
                    forall|j: int| 0 <= j < i ==> #[trigger] view_of(xs@[j]) == view_of(ys@[j]),
                decreases n - i,
            {
                proof {
                    lemma_view_items(xs@);
                    lemma_view_items(ys@);
                    assert(decreases_to!(*a => (*a)->Array_0));
                    assert(decreases_to!(*xs => xs@));
                    assert(decreases_to!(xs@ => xs@[i as int]));
                }
                if !value_eq(&xs[i], &ys[i]) {
                    proof {
                        assert(view_items(xs@)[i as int] != view_items(ys@)[i as int]);
                        assert(view_items(xs@) != view_items(ys@));
                    }
                    return false;
                }
                i = i + 1;
            }
            proof {
                lemma_view_items(xs@);
                lemma_view_items(ys@);
                assert(view_items(xs@) =~= view_items(ys@));
            }
            true
        },
        _ => false,
    }
}

/// Renders the debug text of a value (see [`dbg_str`]).
pub fn render_debug(v: &Value) -> (r: String)
    requires
        vwf(v@),
    ensures
        r@ == dbg_str(v@),
    decreases *v,
{
    match v {
        Value::Str(s) => {
            let mut r = String::from_str("\"");
            r.append(s.as_str());
            r.append("\"");
            proof {
                reveal_strlit("\"");
                assert(r@ =~= dbg_str(v@));
            }
            r
        },
        Value::Int(i) => crate::text::i64_to_string(*i),
        Value::Num(n) => n.to_debug_text(),
        Value::Bool(b) => {
            if *b {
                String::from_str("true")
            } else {
                String::from_str("false")
            }
        },
        Value::Absent => String::from_str("None"),
        Value::Present(inner) => {
            let mut r = String::from_str("Some(");
            let inner_text = render_debug(inner);
            r.append(inner_text.as_str());
            r.append(")");
            proof {
                assert(r@ =~= dbg_str(v@));
            }
            r
        },
        Value::Object(_) => String::from_str("Object"),
        Value::Array(_) => String::from_str("Array"),
    }
}

/// Checks that every decimal reachable in a value is canonical, which the
/// library's constructors guarantee.
pub fn value_wf(v: &Value) -> (r: bool)
    ensures
        r == vwf(v@),
    decreases *v,
{
    match v {
        Value::Num(n) => n.scale <= 18 && (n.mant != 0 || (!n.neg && n.scale == 0)) && (n.scale
            == 0 || n.mant % 10 != 0),
        Value::Present(inner) => value_wf(inner),
        Value::Object(entries) => {
            let n = entries.len();
            let mut i: usize = 0;
            while i < n
                invariant
                    0 <= i <= n,
                    n == entries@.len(),
                    *v == Value::Object(*entries),
                    forall|j: int| 0 <= j < i ==> vwf(#[trigger] view_of(entries@[j].1)),
                decreases n - i,
            {
                proof {
                    lemma_view_entries(entries@);
                    assert(decreases_to!(*v => (*v)->Object_0));
                    assert(decreases_to!(*entries => entries@));
                    assert(decreases_to!(entries@ => entries@[i as int]));
                    assert(decreases_to!(entries@[i as int] => entries@[i as int].1));
                }
                if !value_wf(&entries[i].1) {
                    proof {
                        lemma_vwf_entries(view_entries(entries@));
                        assert(view_entries(entries@)[i as int].1 == view_of(entries@[i as int].1));
                        assert(!vwf_entries(view_entries(entries@)));
                    }
                    return false;
                }
                i = i + 1;
            }
            proof {
                lemma_view_entries(entries@);
                lemma_vwf_entries(view_entries(entries@));
            }
            true
        },
        Value::Array(items) => {
            let n = items.len();
            let mut i: usize = 0;
            while i < n
                invariant
                    0 <= i <= n,
                    n == items@.len(),
                    *v == Value::Array(*items),
                    forall|j: int| 0 <= j < i ==> vwf(#[trigger] view_of(items@[j])),
                decreases n - i,
            {
                proof {
                    lemma_view_items(items@);
                    assert(decreases_to!(*v => (*v)->Array_0));
                    assert(decreases_to!(*items => items@));
                    assert(decreases_to!(items@ => items@[i as int]));
                }
                if !value_wf(&items[i]) {
                    proof {
                        lemma_vwf_items(view_items(items@));
                        assert(view_items(items@)[i as int] == view_of(items@[i as int]));
                        assert(!vwf_items(view_items(items@)));
                    }
                    return false;
                }
                i = i + 1;
            }
            proof {
                lemma_view_items(items@);
                lemma_vwf_items(view_items(items@));
            }
            true
        },
        _ => true,
    }
}

/// The debug rendering used by literal errors: strings quoted (without
/// escaping), integers and decimals in decimal text, the absent state as
/// `None`, a present wrapper as `Some(..)`, mappings and arrays by their
/// type label alone.
pub open spec fn dbg_str(v: Val) -> Seq<char>
    decreases v,
{
    match v {
        Val::Str(s) => seq!['"'] + s + seq!['"'],
        Val::Int(i) => int_str(i),
        Val::Num(n) => num_dbg_str(n),
        Val::Bool(b) => if b {
            "true"@
        } else {
            "false"@
        },
        Val::Absent => "None"@,
        Val::Present(inner) => "Some("@ + dbg_str(*inner) + ")"@,
        Val::Object(_) => "Object"@,
        Val::Array(_) => "Array"@,
    }
}

/// Pointwise reading of [`vwf_entries`].
pub broadcast proof fn lemma_vwf_entries(s: Seq<(Seq<char>, Val)>)
    ensures
        #[trigger] vwf_entries(s) <==> (forall|i: int| 0 <= i < s.len() ==> vwf(#[trigger] s[i].1)),
    decreases s,
{
    if s.len() > 0 {
        lemma_vwf_entries(s.drop_last());
        assert(forall|i: int| 0 <= i < s.len() - 1 ==> #[trigger] s.drop_last()[i] == s[i]);
        if vwf_entries(s) {
            assert forall|i: int| 0 <= i < s.len() implies vwf(#[trigger] s[i].1) by {
                if i < s.len() - 1 {
                    assert(vwf(s.drop_last()[i].1));
                }
            }
        }
    }
}

/// Pointwise reading of [`vwf_items`].
pub broadcast proof fn lemma_vwf_items(s: Seq<Val>)
    ensures
        #[trigger] vwf_items(s) <==> (forall|i: int| 0 <= i < s.len() ==> vwf(#[trigger] s[i])),
    decreases s,
{
    if s.len() > 0 {
        lemma_vwf_items(s.drop_last());
        assert(forall|i: int| 0 <= i < s.len() - 1 ==> #[trigger] s.drop_last()[i] == s[i]);
        if vwf_items(s) {
            assert forall|i: int| 0 <= i < s.len() implies vwf(#[trigger] s[i]) by {
                if i < s.len() - 1 {
                    assert(vwf(s.drop_last()[i]));
                }
            }
        }
    }
}

} // verus!
