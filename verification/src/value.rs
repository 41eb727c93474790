//! The shell's structured-value tree and the generic conversion of any
//! JSON-shaped value into it: the one contract shared by every command that
//! surfaces arbitrary JSON.

use vstd::prelude::*;
use crate::json::{JsonSpec, JsonValue, jspec};

verus! {

/// Mathematical model of a structured shell value.
///
/// `Bytes` is the byte-count scalar: a number tagged as a memory size for
/// downstream formatting. Record field order is insertion order.
#[verifier::ext_equal]
pub enum SValue {
    Record(Seq<(Seq<char>, SValue)>),
    List(Seq<SValue>),
    Str(Seq<char>),
    Int(int),
    Float(Seq<char>),
    Bool(bool),
    Bytes(int),
    Null,
}

/// A structured shell value as executable data: the uniform tree shape the
/// shell's pipeline filters, sorts, and displays.
#[derive(Debug, PartialEq)]
pub enum StructuredValue {
    Record(Vec<(String, StructuredValue)>),
    List(Vec<StructuredValue>),
    Str(String),
    Int(i128),
    Float(String),
    Bool(bool),
    Bytes(u64),
    Null,
}

/// The mathematical value a `StructuredValue` denotes.
pub open spec fn sspec(s: StructuredValue) -> SValue
    decreases s,
{
    match s {
        StructuredValue::Null => SValue::Null,
        StructuredValue::Bool(b) => SValue::Bool(b),
        StructuredValue::Int(i) => SValue::Int(i as int),
        StructuredValue::Bytes(n) => SValue::Bytes(n as int),
        StructuredValue::Float(t) => SValue::Float(t@),
        StructuredValue::Str(t) => SValue::Str(t@),
        // The index guards keep each recursive call visibly on a subterm.
        StructuredValue::List(items) => SValue::List(
            Seq::new(
                items.len() as nat,
                |i: int|
                    if 0 <= i < items.len() {
                        sspec(items[i])
                    } else {
                        SValue::Null
                    },
            ),
        ),
        StructuredValue::Record(fields) => SValue::Record(
            Seq::new(
                fields.len() as nat,
                |i: int|
                    if 0 <= i < fields.len() {
                        (fields[i].0@, sspec(fields[i].1))
                    } else {
                        (Seq::empty(), SValue::Null)
                    },
            ),
        ),
    }
}

impl View for StructuredValue {
    type V = SValue;

    open spec fn view(&self) -> SValue {
        sspec(*self)
    }
}

/// What conversion yields for a given JSON value: objects become records,
/// arrays become lists, scalars keep their kind, all in source order. No
/// byte-count tagging happens here; that is topology policy, not a JSON
/// convention.
pub open spec fn conv_spec(j: JsonSpec) -> SValue
    decreases j,
{
    match j {
        JsonSpec::Null => SValue::Null,
        JsonSpec::Bool(b) => SValue::Bool(b),
        JsonSpec::Int(i) => SValue::Int(i),
        JsonSpec::Float(t) => SValue::Float(t),
        JsonSpec::Str(t) => SValue::Str(t),
        JsonSpec::Arr(items) => SValue::List(
            Seq::new(
                items.len(),
                |i: int|
                    if 0 <= i < items.len() {
                        conv_spec(items[i])
                    } else {
                        SValue::Null
                    },
            ),
        ),
        JsonSpec::Obj(fields) => SValue::Record(
            Seq::new(
                fields.len(),
                |i: int|
                    if 0 <= i < fields.len() {
                        (fields[i].0, conv_spec(fields[i].1))
                    } else {
                        (Seq::empty(), SValue::Null)
                    },
            ),
        ),
    }
}

/// Convert a JSON-shaped value into a structured shell value, preserving
/// shape: deterministic and side-effect-free.
#[verifier::loop_isolation(false)]
pub fn convert(j: &JsonValue) -> (r: StructuredValue)
    ensures
        r@ == conv_spec(j@),
    decreases *j,
{
    match j {
        JsonValue::Null => StructuredValue::Null,
        JsonValue::Bool(b) => StructuredValue::Bool(*b),
        JsonValue::Int(i) => StructuredValue::Int(*i),
        JsonValue::Float(t) => StructuredValue::Float(t.clone()),
        JsonValue::Str(t) => StructuredValue::Str(t.clone()),
        JsonValue::Arr(items) => {
            let mut out: Vec<StructuredValue> = Vec::new();
            let mut i: usize = 0;
            while i < items.len()
                invariant
                    i <= items.len(),
                    out.len() == i,
                    forall|k: int| 0 <= k < i ==> (#[trigger] out[k])@ == conv_spec(items[k]@),
                decreases items.len() - i,
            {
                let c = convert(&items[i]);
                out.push(c);
                i += 1;
            }
            let r = StructuredValue::List(out);
            proof {
                let inner = j@->Arr_0;
                assert(inner.len() == items@.len());
                assert forall|k: int| 0 <= k < items@.len() implies inner[k] == jspec(items@[k]) by {}
                lemma_convert_preserves_shape(j@);
                let rv = r@->List_0;
                assert forall|k: int| 0 <= k < items@.len() implies rv[k] == sspec(out@[k]) by {}
                assert(rv =~= conv_spec(j@)->List_0);
                assert(r@ =~= conv_spec(j@));
            }
            r
        },
        JsonValue::Obj(fields) => {
            let mut out: Vec<(String, StructuredValue)> = Vec::new();
            let mut i: usize = 0;
            while i < fields.len()
                invariant
                    i <= fields.len(),
                    out.len() == i,
                    forall|k: int| 0 <= k < i ==> (#[trigger] out[k]).0 == fields[k].0
                        && out[k].1@ == conv_spec(fields[k].1@),
                decreases fields.len() - i,
            {
                let key = fields[i].0.clone();
                let val = convert(&fields[i].1);
                out.push((key, val));
                i += 1;
            }
            let r = StructuredValue::Record(out);
            proof {
                let inner = j@->Obj_0;
                assert(inner.len() == fields@.len());
                assert forall|k: int| 0 <= k < fields@.len() implies inner[k] == (
                    fields@[k].0@,
                    jspec(fields@[k].1),
                ) by {}
                lemma_convert_preserves_shape(j@);
                let rv = r@->Record_0;
                assert forall|k: int| 0 <= k < fields@.len() implies rv[k] == (
                    out@[k].0@,
                    sspec(out@[k].1),
                ) by {}
                assert(rv =~= conv_spec(j@)->Record_0);
                assert(r@ =~= conv_spec(j@));
            }
            r
        },
    }
}

/// The JSON form of a scalar structured value, where one exists.
pub open spec fn scalar_json_of(s: SValue) -> Option<JsonSpec> {
    match s {
        SValue::Str(t) => Some(JsonSpec::Str(t)),
        SValue::Int(i) => Some(JsonSpec::Int(i)),
        SValue::Float(t) => Some(JsonSpec::Float(t)),
        SValue::Bool(b) => Some(JsonSpec::Bool(b)),
        SValue::Null => Some(JsonSpec::Null),
        _ => None,
    }
}

/// Law: conversion is idempotent on scalar leaves. A scalar JSON value
/// converts to a scalar that still has a JSON form, and converting that
/// form again gives the same scalar back.
pub proof fn lemma_convert_idempotent_on_scalars(j: JsonSpec)
    requires
        !(j is Arr),
        !(j is Obj),
    ensures
        scalar_json_of(conv_spec(j)) is Some,
        conv_spec(scalar_json_of(conv_spec(j)).unwrap()) == conv_spec(j),
{
}

/// Law: conversion is a structural isomorphism: two JSON values that
/// convert to the same structured value are the same value.
pub proof fn lemma_convert_injective(a: JsonSpec, b: JsonSpec)
    requires
        conv_spec(a) == conv_spec(b),
    ensures
        a == b,
    decreases a,
{
    lemma_convert_preserves_shape(a);
    lemma_convert_preserves_shape(b);
    match a {
        JsonSpec::Arr(items_a) => {
            assert(b is Arr);
            let items_b = b->Arr_0;
            assert(items_a.len() == items_b.len());
            assert forall|i: int| 0 <= i < items_a.len() implies items_a[i] == items_b[i] by {
                assert(conv_spec(a)->List_0[i] == conv_spec(items_a[i]));
                assert(conv_spec(b)->List_0[i] == conv_spec(items_b[i]));
                lemma_convert_injective(items_a[i], items_b[i]);
            }
            assert(items_a =~= items_b);
        },
        JsonSpec::Obj(fields_a) => {
            assert(b is Obj);
            let fields_b = b->Obj_0;
            assert(fields_a.len() == fields_b.len());
            assert forall|i: int| 0 <= i < fields_a.len() implies fields_a[i] == fields_b[i] by {
                assert(conv_spec(a)->Record_0[i] == (fields_a[i].0, conv_spec(fields_a[i].1)));
                assert(conv_spec(b)->Record_0[i] == (fields_b[i].0, conv_spec(fields_b[i].1)));
                lemma_convert_injective(fields_a[i].1, fields_b[i].1);
            }
            assert(fields_a =~= fields_b);
        },
        _ => {
        },
    }
}

/// Law: conversion preserves value kind, element order, and field order.
pub proof fn lemma_convert_preserves_shape(j: JsonSpec)
    ensures
        j matches JsonSpec::Arr(items) ==> conv_spec(j) matches SValue::List(out)
            && out.len() == items.len()
            && (forall|i: int| 0 <= i < items.len() ==> #[trigger] out[i] == conv_spec(items[i])),
        j matches JsonSpec::Obj(fields) ==> conv_spec(j) matches SValue::Record(out)
            && out.len() == fields.len()
            && (forall|i: int| 0 <= i < fields.len() ==> #[trigger] out[i] == (
                fields[i].0,
                conv_spec(fields[i].1),
            )),
        j matches JsonSpec::Int(n) ==> conv_spec(j) == SValue::Int(n),
        j matches JsonSpec::Float(t) ==> conv_spec(j) == SValue::Float(t),
        j matches JsonSpec::Str(t) ==> conv_spec(j) == SValue::Str(t),
        j matches JsonSpec::Bool(x) ==> conv_spec(j) == SValue::Bool(x),
        j is Null ==> conv_spec(j) == SValue::Null,
{
    match j {
        JsonSpec::Arr(items) => {
            let out = conv_spec(j)->List_0;
            assert(out.len() == items.len());
            assert forall|i: int| 0 <= i < items.len() implies out[i] == conv_spec(items[i]) by {}
        },
        JsonSpec::Obj(fields) => {
            let out = conv_spec(j)->Record_0;
            assert(out.len() == fields.len());
            assert forall|i: int| 0 <= i < fields.len() implies out[i] == (
                fields[i].0,
                conv_spec(fields[i].1),
            ) by {}
        },
        _ => {
        },
    }
}

} // verus!

