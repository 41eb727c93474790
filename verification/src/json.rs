//! The JSON-shaped value tree: the input side of value conversion and the
//! shape every REST payload and streamed query row takes once the transport
//! has handed it over.

use vstd::prelude::*;

verus! {

/// Mathematical model of a JSON value.
///
/// A number without a fractional part is an `Int`; one with a fractional
/// part is a `Float` and is carried as its decimal rendering, since this
/// crate performs no floating-point arithmetic of its own. Object fields
/// keep their source order.
#[verifier::ext_equal]
pub enum JsonSpec {
    Null,
    Bool(bool),
    Int(int),
    Float(Seq<char>),
    Str(Seq<char>),
    Arr(Seq<JsonSpec>),
    Obj(Seq<(Seq<char>, JsonSpec)>),
}

/// A JSON value as executable data. Field order of an object is the order
/// in which the fields stood in the source text.
#[derive(Debug, PartialEq)]
pub enum JsonValue {
    Null,
    Bool(bool),
    Int(i128),
    Float(String),
    Str(String),
    Arr(Vec<JsonValue>),
    Obj(Vec<(String, JsonValue)>),
}

/// The mathematical value a `JsonValue` denotes.
pub open spec fn jspec(j: JsonValue) -> JsonSpec
    decreases j,
{
    match j {
        JsonValue::Null => JsonSpec::Null,
        JsonValue::Bool(b) => JsonSpec::Bool(b),
        JsonValue::Int(i) => JsonSpec::Int(i as int),
        JsonValue::Float(t) => JsonSpec::Float(t@),
        JsonValue::Str(t) => JsonSpec::Str(t@),
        // The index guards keep each recursive call visibly on a subterm.
        JsonValue::Arr(items) => JsonSpec::Arr(
            Seq::new(
                items.len() as nat,
                |i: int|
                    if 0 <= i < items.len() {
                        jspec(items[i])
                    } else {
                        JsonSpec::Null
                    },
            ),
        ),
        JsonValue::Obj(fields) => JsonSpec::Obj(
            Seq::new(
                fields.len() as nat,
                |i: int|
                    if 0 <= i < fields.len() {
                        (fields[i].0@, jspec(fields[i].1))
                    } else {
                        (Seq::empty(), JsonSpec::Null)
                    },
            ),
        ),
    }
}

impl View for JsonValue {
    type V = JsonSpec;

    open spec fn view(&self) -> JsonSpec {
        jspec(*self)
    }
}

/// The value of the first field named `name`, if any.
pub open spec fn spec_lookup(fields: Seq<(Seq<char>, JsonSpec)>, name: Seq<char>) -> Option<JsonSpec>
    decreases fields.len(),
{
    if fields.len() == 0 {
        None
    } else if fields[0].0 == name {
        Some(fields[0].1)
    } else {
        spec_lookup(fields.skip(1), name)
    }
}

/// Look a field up in an object's field list: the first field whose name
/// matches wins, as in the model.
pub fn lookup<'a>(fields: &'a Vec<(String, JsonValue)>, name: &str) -> (r: Option<&'a JsonValue>)
    ensures
        match r {
            Some(v) => spec_lookup(obj_fields_spec(*fields), name@) == Some(v@),
            None => spec_lookup(obj_fields_spec(*fields), name@) is None,
        },
{
    let ghost m = obj_fields_spec(*fields);
    proof {
        assert(m.skip(0) =~= m);
    }
    let mut i: usize = 0;
    while i < fields.len()
        invariant
            m == obj_fields_spec(*fields),
            m.len() == fields.len(),
            i <= fields.len(),
            spec_lookup(m, name@) == spec_lookup(m.skip(i as int), name@),
        decreases fields.len() - i,
    {
        if crate::service::str_eq(fields[i].0.as_str(), name) {
            proof {
                assert(m.skip(i as int)[0] == m[i as int]);
            }
            return Some(&fields[i].1);
        }
        proof {
            assert(m.skip(i as int)[0] == m[i as int]);
            assert(m.skip(i as int).skip(1) =~= m.skip(i as int + 1));
        }
        i += 1;
    }
    proof {
        assert(m.skip(i as int).len() == 0);
    }
    None
}

/// The element list of an array, as the model sees it.
pub open spec fn arr_spec(items: Seq<JsonValue>) -> Seq<JsonSpec> {
    Seq::new(items.len(), |i: int| jspec(items[i]))
}

/// The field list of an object, as the model sees it.
pub open spec fn obj_fields_spec(fields: Vec<(String, JsonValue)>) -> Seq<(Seq<char>, JsonSpec)> {
    Seq::new(fields.len() as nat, |i: int| (fields[i].0@, jspec(fields[i].1)))
}

} // verus!
