//! The tagged-document value algebra: the wire-level payload
//! representation of a remote tool-invocation protocol, with the
//! numeric subtype distinctions kept.

use vstd::prelude::*;
use crate::number::{NumberValue, number_finite};

verus! {

/// A tagged-document value. Objects keep their entries as a vector
/// of key/value pairs; no iteration-order guarantee is claimed for
/// documents that arrive from an unordered map.
#[derive(Debug, PartialEq)]
pub enum TaggedDocument {
    Null,
    Bool(bool),
    Num(NumberValue),
    Text(String),
    Arr(Vec<TaggedDocument>),
    Obj(Vec<(String, TaggedDocument)>),
}

/// The mathematical model of a tagged-document value.
#[verifier::ext_equal]
pub enum SpecTaggedDocument {
    Null,
    Bool(bool),
    Num(NumberValue),
    Text(Seq<char>),
    Arr(Seq<SpecTaggedDocument>),
    Obj(Seq<(Seq<char>, SpecTaggedDocument)>),
}

/// The model of a tagged-document value.
pub open spec fn tagged_view(d: TaggedDocument) -> SpecTaggedDocument
    decreases d,
{
    match d {
        TaggedDocument::Null => SpecTaggedDocument::Null,
        TaggedDocument::Bool(b) => SpecTaggedDocument::Bool(b),
        TaggedDocument::Num(n) => SpecTaggedDocument::Num(n),
        TaggedDocument::Text(s) => SpecTaggedDocument::Text(s@),
        TaggedDocument::Arr(elts) => SpecTaggedDocument::Arr(
            Seq::new(
                elts@.len(),
                |i: int|
                    if 0 <= i < elts@.len() {
                        tagged_view(elts@[i])
                    } else {
                        SpecTaggedDocument::Null
                    },
            ),
        ),
        TaggedDocument::Obj(pairs) => SpecTaggedDocument::Obj(
            Seq::new(
                pairs@.len(),
                |i: int|
                    if 0 <= i < pairs@.len() {
                        (pairs@[i].0@, tagged_view(pairs@[i].1))
                    } else {
                        (Seq::empty(), SpecTaggedDocument::Null)
                    },
            ),
        ),
    }
}

impl View for TaggedDocument {
    type V = SpecTaggedDocument;

    open spec fn view(&self) -> SpecTaggedDocument {
        tagged_view(*self)
    }
}

/// Whether every floating-point number inside a tagged document is
/// finite. Exactly these documents convert to JSON.
pub open spec fn doc_floats_finite(d: SpecTaggedDocument) -> bool
    decreases d,
{
    match d {
        SpecTaggedDocument::Num(n) => number_finite(n),
        SpecTaggedDocument::Arr(elts) => forall|i: int|
            0 <= i < elts.len() ==> doc_floats_finite(#[trigger] elts[i]),
        SpecTaggedDocument::Obj(pairs) => forall|i: int|
            0 <= i < pairs.len() ==> doc_floats_finite(#[trigger] pairs[i].1),
        _ => true,
    }
}

} // verus!
