//! The JSON value algebra: objects, arrays, strings, numbers,
//! booleans and null, with an ordered object representation.

use vstd::prelude::*;
use crate::number::{NumberValue, finite_bits};

verus! {

/// A JSON value. Objects keep their entries in insertion order as a
/// vector of key/value pairs.
#[derive(Debug, PartialEq)]
pub enum JsonValue {
    Null,
    Bool(bool),
    Num(NumberValue),
    Text(String),
    Arr(Vec<JsonValue>),
    Obj(Vec<(String, JsonValue)>),
}

/// The mathematical model of a JSON value: strings are character
/// sequences, arrays and objects are sequences.
#[verifier::ext_equal]
pub enum SpecJsonValue {
    Null,
    Bool(bool),
    Num(NumberValue),
    Text(Seq<char>),
    Arr(Seq<SpecJsonValue>),
    Obj(Seq<(Seq<char>, SpecJsonValue)>),
}

/// The model of a JSON value.
pub open spec fn json_view(v: JsonValue) -> SpecJsonValue
    decreases v,
{
    match v {
        JsonValue::Null => SpecJsonValue::Null,
        JsonValue::Bool(b) => SpecJsonValue::Bool(b),
        JsonValue::Num(n) => SpecJsonValue::Num(n),
        JsonValue::Text(s) => SpecJsonValue::Text(s@),
        JsonValue::Arr(elts) => SpecJsonValue::Arr(
            Seq::new(
                elts@.len(),
                |i: int|
                    if 0 <= i < elts@.len() {
                        json_view(elts@[i])
                    } else {
                        SpecJsonValue::Null
                    },
            ),
        ),
        JsonValue::Obj(pairs) => SpecJsonValue::Obj(
            Seq::new(
                pairs@.len(),
                |i: int|
                    if 0 <= i < pairs@.len() {
                        (pairs@[i].0@, json_view(pairs@[i].1))
                    } else {
                        (Seq::empty(), SpecJsonValue::Null)
                    },
            ),
        ),
    }
}

impl View for JsonValue {
    type V = SpecJsonValue;

    open spec fn view(&self) -> SpecJsonValue {
        json_view(*self)
    }
}

/// Whether every floating-point number inside a JSON value is finite.
/// The algebra has no representation for an infinity or a NaN, so
/// every value the library hands out satisfies this.
pub open spec fn json_floats_finite(v: SpecJsonValue) -> bool
    decreases v,
{
    match v {
        SpecJsonValue::Num(NumberValue::Float(bits)) => finite_bits(bits),
        SpecJsonValue::Arr(elts) => forall|i: int|
            0 <= i < elts.len() ==> json_floats_finite(#[trigger] elts[i]),
        SpecJsonValue::Obj(pairs) => forall|i: int|
            0 <= i < pairs.len() ==> json_floats_finite(#[trigger] pairs[i].1),
        _ => true,
    }
}

} // verus!
