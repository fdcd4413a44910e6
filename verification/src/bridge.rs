//! The document bridge: converts a tagged-document value into a JSON
//! value, recursively and fail-fast, so that a generic structural
//! deserializer can then produce a typed record instance.

use vstd::prelude::*;
use vstd::string::StringExecFns;

use crate::json::{JsonValue, SpecJsonValue, json_floats_finite};
use crate::tagged::{TaggedDocument, SpecTaggedDocument, doc_floats_finite};

verus! {

/// Why a tagged document could not be turned into a typed record.
#[derive(Debug, PartialEq)]
pub enum ConversionError {
    /// A numeric value in the tagged document cannot be expressed as
    /// a JSON number: its floating-point bit pattern is an infinity
    /// or a NaN.
    UnrepresentableNumber,
    /// The converted JSON value's shape does not match the target
    /// record; carries the downstream deserializer's message.
    StructuralMismatch(String),
}

impl ConversionError {
    /// A human-readable description of the error.
    pub fn message(&self) -> (r: String)
        ensures
            *self is UnrepresentableNumber ==> r@
                == "invalid floating-point value in tagged document"@,
            self matches ConversionError::StructuralMismatch(m) ==> r@ == m@,
    {
        match self {
            ConversionError::UnrepresentableNumber => String::from_str(
                "invalid floating-point value in tagged document",
            ),
            ConversionError::StructuralMismatch(m) => m.clone(),
        }
    }
}

/// The structural mapping from the tagged-document algebra to the
/// JSON algebra. Total: numeric values keep their subkind and their
/// bits; whether a floating-point value is representable is judged
/// separately by `doc_floats_finite`.
pub open spec fn doc_to_json_spec(d: SpecTaggedDocument) -> SpecJsonValue
    decreases d,
{
    match d {
        SpecTaggedDocument::Null => SpecJsonValue::Null,
        SpecTaggedDocument::Bool(b) => SpecJsonValue::Bool(b),
        SpecTaggedDocument::Num(n) => SpecJsonValue::Num(n),
        SpecTaggedDocument::Text(s) => SpecJsonValue::Text(s),
        SpecTaggedDocument::Arr(elts) => SpecJsonValue::Arr(
            Seq::new(
                elts.len(),
                |i: int|
                    if 0 <= i < elts.len() {
                        doc_to_json_spec(elts[i])
                    } else {
                        SpecJsonValue::Null
                    },
            ),
        ),
        SpecTaggedDocument::Obj(pairs) => SpecJsonValue::Obj(
            Seq::new(
                pairs.len(),
                |i: int|
                    if 0 <= i < pairs.len() {
                        (pairs[i].0, doc_to_json_spec(pairs[i].1))
                    } else {
                        (Seq::empty(), SpecJsonValue::Null)
                    },
            ),
        ),
    }
}

/// The structural mapping from the JSON algebra back to the
/// tagged-document algebra. Total: every JSON value has a
/// tagged-document form.
pub open spec fn json_to_doc_spec(v: SpecJsonValue) -> SpecTaggedDocument
    decreases v,
{
    match v {
        SpecJsonValue::Null => SpecTaggedDocument::Null,
        SpecJsonValue::Bool(b) => SpecTaggedDocument::Bool(b),
        SpecJsonValue::Num(n) => SpecTaggedDocument::Num(n),
        SpecJsonValue::Text(s) => SpecTaggedDocument::Text(s),
        SpecJsonValue::Arr(elts) => SpecTaggedDocument::Arr(
            Seq::new(
                elts.len(),
                |i: int|
                    if 0 <= i < elts.len() {
                        json_to_doc_spec(elts[i])
                    } else {
                        SpecTaggedDocument::Null
                    },
            ),
        ),
        SpecJsonValue::Obj(pairs) => SpecTaggedDocument::Obj(
            Seq::new(
                pairs.len(),
                |i: int|
                    if 0 <= i < pairs.len() {
                        (pairs[i].0, json_to_doc_spec(pairs[i].1))
                    } else {
                        (Seq::empty(), SpecTaggedDocument::Null)
                    },
            ),
        ),
    }
}

/// Converts a tagged document into a JSON value. Succeeds exactly
/// when every floating-point number in the document is finite; the
/// first unrepresentable number aborts the whole conversion.
#[verifier::loop_isolation(false)]
pub fn document_to_json(d: &TaggedDocument) -> (r: Result<JsonValue, ConversionError>)
    ensures
        r is Ok <==> doc_floats_finite(d@),
        r matches Ok(v) ==> v@ == doc_to_json_spec(d@),
        r matches Err(e) ==> e == ConversionError::UnrepresentableNumber,
    decreases *d,
{
    match d {
        TaggedDocument::Null => Ok(JsonValue::Null),
        TaggedDocument::Bool(b) => Ok(JsonValue::Bool(*b)),
        TaggedDocument::Num(n) => {
            if n.is_finite() {
                Ok(JsonValue::Num(*n))
            } else {
                Err(ConversionError::UnrepresentableNumber)
            }
        },
        TaggedDocument::Text(s) => Ok(JsonValue::Text(s.clone())),
        TaggedDocument::Arr(elts) => {
            let mut out: Vec<JsonValue> = Vec::new();
            let mut i: usize = 0;
            while i < elts.len()
                invariant
                    i <= elts@.len(),
                    out@.len() == i,
                    forall|j: int| 0 <= j < i ==> doc_floats_finite(#[trigger] elts@[j]@),
                    forall|j: int|
                        0 <= j < i ==> (#[trigger] out@[j])@ == doc_to_json_spec(elts@[j]@),
                decreases elts@.len() - i,
            {
                match document_to_json(&elts[i]) {
                    Ok(v) => {
                        out.push(v);
                    },
                    Err(e) => {
                        proof {
                            assert(d@->Arr_0[i as int] == elts@[i as int]@);
                            assert(!doc_floats_finite(d@));
                        }
                        return Err(e);
                    },
                }
                i += 1;
            }
            proof {
                let lhs = JsonValue::Arr(out)@;
                let rhs = doc_to_json_spec(d@);
                assert forall|j: int| 0 <= j < elts@.len() implies lhs->Arr_0[j] == rhs->Arr_0[j] by {
                    assert(lhs->Arr_0[j] == out@[j]@);
                    assert(rhs->Arr_0[j] == doc_to_json_spec(d@->Arr_0[j]));
                    assert(d@->Arr_0[j] == elts@[j]@);
                }
                assert(lhs is Arr);
                assert(rhs is Arr);
                assert(lhs->Arr_0.len() == rhs->Arr_0.len());
                assert(lhs->Arr_0 =~~= rhs->Arr_0);
                assert(lhs =~~= rhs);
                assert forall|j: int| 0 <= j < d@->Arr_0.len() implies doc_floats_finite(
                    #[trigger] d@->Arr_0[j],
                ) by {
                    assert(d@->Arr_0[j] == elts@[j]@);
                }
                assert(doc_floats_finite(d@));
            }
            Ok(JsonValue::Arr(out))
        },
        TaggedDocument::Obj(pairs) => {
            let mut out: Vec<(String, JsonValue)> = Vec::new();
            let mut i: usize = 0;
            while i < pairs.len()
                invariant
                    i <= pairs@.len(),
                    out@.len() == i,
                    forall|j: int| 0 <= j < i ==> doc_floats_finite(#[trigger] pairs@[j].1@),
                    forall|j: int|
                        0 <= j < i ==> (#[trigger] out@[j]).0@ == pairs@[j].0@
                            && out@[j].1@ == doc_to_json_spec(pairs@[j].1@),
                decreases pairs@.len() - i,
            {
                match document_to_json(&pairs[i].1) {
                    Ok(v) => {
                        let key = pairs[i].0.clone();
                        out.push((key, v));
                    },
                    Err(e) => {
                        proof {
                            assert(d@->Obj_0[i as int].1 == pairs@[i as int].1@);
                            assert(!doc_floats_finite(d@));
                        }
                        return Err(e);
                    },
                }
                i += 1;
            }
            proof {
                let lhs = JsonValue::Obj(out)@;
                let rhs = doc_to_json_spec(d@);
                assert forall|j: int| 0 <= j < pairs@.len() implies lhs->Obj_0[j] == rhs->Obj_0[j] by {
                    assert(lhs->Obj_0[j] == (out@[j].0@, out@[j].1@));
                    assert(d@->Obj_0[j] == (pairs@[j].0@, pairs@[j].1@));
                    assert(rhs->Obj_0[j] == (d@->Obj_0[j].0, doc_to_json_spec(d@->Obj_0[j].1)));
                }
                assert(lhs->Obj_0.len() == rhs->Obj_0.len());
                assert(lhs->Obj_0 =~~= rhs->Obj_0);
                assert(lhs =~~= rhs);
                assert forall|j: int| 0 <= j < d@->Obj_0.len() implies doc_floats_finite(
                    (#[trigger] d@->Obj_0[j]).1,
                ) by {
                    assert(d@->Obj_0[j].1 == pairs@[j].1@);
                }
                assert(doc_floats_finite(d@));
            }
            Ok(JsonValue::Obj(out))
        },
    }
}

/// Converts a JSON value into its tagged-document form. Total: the
/// reverse direction of the bridge never fails.
#[verifier::loop_isolation(false)]
pub fn json_to_document(v: &JsonValue) -> (r: TaggedDocument)
    ensures
        r@ == json_to_doc_spec(v@),
    decreases *v,
{
    match v {
        JsonValue::Null => TaggedDocument::Null,
        JsonValue::Bool(b) => TaggedDocument::Bool(*b),
        JsonValue::Num(n) => TaggedDocument::Num(*n),
        JsonValue::Text(s) => TaggedDocument::Text(s.clone()),
        JsonValue::Arr(elts) => {
            let mut out: Vec<TaggedDocument> = Vec::new();
            let mut i: usize = 0;
            while i < elts.len()
                invariant
                    i <= elts@.len(),
                    out@.len() == i,
                    forall|j: int|
                        0 <= j < i ==> (#[trigger] out@[j])@ == json_to_doc_spec(elts@[j]@),
                decreases elts@.len() - i,
            {
                let e = json_to_document(&elts[i]);
                out.push(e);
                i += 1;
            }
            let r = TaggedDocument::Arr(out);
            proof {
                let lhs = r@;
                let rhs = json_to_doc_spec(v@);
                assert forall|j: int| 0 <= j < elts@.len() implies lhs->Arr_0[j] == rhs->Arr_0[j] by {
                    assert(lhs->Arr_0[j] == out@[j]@);
                    assert(rhs->Arr_0[j] == json_to_doc_spec(v@->Arr_0[j]));
                    assert(v@->Arr_0[j] == elts@[j]@);
                }
                assert(lhs->Arr_0.len() == rhs->Arr_0.len());
                assert(lhs->Arr_0 =~~= rhs->Arr_0);
                assert(lhs =~~= rhs);
            }
            r
        },
        JsonValue::Obj(pairs) => {
            let mut out: Vec<(String, TaggedDocument)> = Vec::new();
            let mut i: usize = 0;
            while i < pairs.len()
                invariant
                    i <= pairs@.len(),
                    out@.len() == i,
                    forall|j: int|
                        0 <= j < i ==> (#[trigger] out@[j]).0@ == pairs@[j].0@
                            && out@[j].1@ == json_to_doc_spec(pairs@[j].1@),
                decreases pairs@.len() - i,
            {
                let key = pairs[i].0.clone();
                let e = json_to_document(&pairs[i].1);
                out.push((key, e));
                i += 1;
            }
            let r = TaggedDocument::Obj(out);
            proof {
                let lhs = r@;
                let rhs = json_to_doc_spec(v@);
                assert forall|j: int| 0 <= j < pairs@.len() implies lhs->Obj_0[j] == rhs->Obj_0[j] by {
                    assert(lhs->Obj_0[j] == (out@[j].0@, out@[j].1@));
                    assert(v@->Obj_0[j] == (pairs@[j].0@, pairs@[j].1@));
                    assert(rhs->Obj_0[j] == (v@->Obj_0[j].0, json_to_doc_spec(v@->Obj_0[j].1)));
                }
                assert(lhs->Obj_0.len() == rhs->Obj_0.len());
                assert(lhs->Obj_0 =~~= rhs->Obj_0);
                assert(lhs =~~= rhs);
            }
            r
        },
    }
}

/// Round trip, tagged side: mapping a tagged document to JSON and
/// back reproduces it exactly. The mapping loses no structure and no
/// numeric subkind.
pub proof fn lemma_document_round_trip(d: SpecTaggedDocument)
    ensures
        json_to_doc_spec(doc_to_json_spec(d)) == d,
    decreases d,
{
    match d {
        SpecTaggedDocument::Arr(elts) => {
            let mid = doc_to_json_spec(d);
            let back = json_to_doc_spec(mid);
            assert forall|i: int| 0 <= i < elts.len() implies back->Arr_0[i] == elts[i] by {
                assert(mid->Arr_0[i] == doc_to_json_spec(elts[i]));
                lemma_document_round_trip(elts[i]);
            }
            assert(back->Arr_0 =~~= elts);
            assert(back =~~= d);
        },
        SpecTaggedDocument::Obj(pairs) => {
            let mid = doc_to_json_spec(d);
            let back = json_to_doc_spec(mid);
            assert forall|i: int|
                0 <= i < pairs.len() implies back->Obj_0[i].0 == pairs[i].0 && back->Obj_0[i].1
                    == pairs[i].1 by {
                assert(mid->Obj_0[i] == (pairs[i].0, doc_to_json_spec(pairs[i].1)));
                lemma_document_round_trip(pairs[i].1);
            }
            assert(back->Obj_0 =~~= pairs);
            assert(back =~~= d);
        },
        _ => {},
    }
}

/// Round trip, JSON side: mapping a JSON value to a tagged document
/// and back reproduces it exactly.
pub proof fn lemma_json_round_trip(v: SpecJsonValue)
    ensures
        doc_to_json_spec(json_to_doc_spec(v)) == v,
    decreases v,
{
    match v {
        SpecJsonValue::Arr(elts) => {
            let mid = json_to_doc_spec(v);
            let back = doc_to_json_spec(mid);
            assert forall|i: int| 0 <= i < elts.len() implies back->Arr_0[i] == elts[i] by {
                assert(mid->Arr_0[i] == json_to_doc_spec(elts[i]));
                lemma_json_round_trip(elts[i]);
            }
            assert(back->Arr_0 =~~= elts);
            assert(back =~~= v);
        },
        SpecJsonValue::Obj(pairs) => {
            let mid = json_to_doc_spec(v);
            let back = doc_to_json_spec(mid);
            assert forall|i: int|
                0 <= i < pairs.len() implies back->Obj_0[i].0 == pairs[i].0 && back->Obj_0[i].1
                    == pairs[i].1 by {
                assert(mid->Obj_0[i] == (pairs[i].0, json_to_doc_spec(pairs[i].1)));
                lemma_json_round_trip(pairs[i].1);
            }
            assert(back->Obj_0 =~~= pairs);
            assert(back =~~= v);
        },
        _ => {},
    }
}

/// The tagged-document form of a JSON value has a finite
/// floating-point number exactly where the JSON value has one.
pub proof fn lemma_json_to_doc_finite(v: SpecJsonValue)
    ensures
        doc_floats_finite(json_to_doc_spec(v)) <==> json_floats_finite(v),
    decreases v,
{
    match v {
        SpecJsonValue::Arr(elts) => {
            let jd = json_to_doc_spec(v);
            assert forall|i: int|
                0 <= i < elts.len() implies (doc_floats_finite(#[trigger] jd->Arr_0[i])
                    <==> json_floats_finite(elts[i])) by {
                assert(jd->Arr_0[i] == json_to_doc_spec(elts[i]));
                lemma_json_to_doc_finite(elts[i]);
            }
            if json_floats_finite(v) {
                assert forall|i: int| 0 <= i < jd->Arr_0.len() implies doc_floats_finite(
                    #[trigger] jd->Arr_0[i],
                ) by {
                    assert(json_floats_finite(elts[i]));
                }
                assert(doc_floats_finite(jd));
            }
            if doc_floats_finite(jd) {
                assert forall|i: int| 0 <= i < elts.len() implies json_floats_finite(
                    #[trigger] elts[i],
                ) by {
                    assert(doc_floats_finite(jd->Arr_0[i]));
                }
                assert(json_floats_finite(v));
            }
        },
        SpecJsonValue::Obj(pairs) => {
            let jd = json_to_doc_spec(v);
            assert forall|i: int|
                0 <= i < pairs.len() implies (doc_floats_finite((#[trigger] jd->Obj_0[i]).1)
                    <==> json_floats_finite(pairs[i].1)) by {
                assert(jd->Obj_0[i] == (pairs[i].0, json_to_doc_spec(pairs[i].1)));
                lemma_json_to_doc_finite(pairs[i].1);
            }
            if json_floats_finite(v) {
                assert forall|i: int| 0 <= i < jd->Obj_0.len() implies doc_floats_finite(
                    (#[trigger] jd->Obj_0[i]).1,
                ) by {
                    assert(json_floats_finite(pairs[i].1));
                }
                assert(doc_floats_finite(jd));
            }
            if doc_floats_finite(jd) {
                assert forall|i: int| 0 <= i < pairs.len() implies json_floats_finite(
                    (#[trigger] pairs[i]).1,
                ) by {
                    assert(doc_floats_finite(jd->Obj_0[i].1));
                }
                assert(json_floats_finite(v));
            }
        },
        _ => {},
    }
}

} // verus!

