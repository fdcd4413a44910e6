//! The type classifier: from a field's declared type shape to a
//! JSON-Schema primitive category.

use vstd::prelude::*;

verus! {

/// The JSON-Schema-style vocabulary used by both schema outputs.
#[derive(Debug, Clone, Copy, PartialEq, Eq, Structural)]
pub enum SchemaPrimitive {
    Boolean,
    Integer,
    Number,
    Str,
    Array,
    Object,
}

/// The declared shape of a record field's type. All integer widths,
/// signed or unsigned, collapse to `Integer`; all floating-point
/// widths to `Float`; owned and borrowed text to `Text`. A shape the
/// classifier does not recognize is `Other`.
#[derive(Debug, PartialEq, Eq)]
pub enum TypeShape {
    Boolean,
    Integer,
    Float,
    Text,
    Optional(Box<TypeShape>),
    List(Box<TypeShape>),
    Other,
}

/// The schema primitive of a shape. Optional wrappers are stripped:
/// optionality is reflected only in the required list, never in the
/// primitive itself.
pub open spec fn spec_primitive_of(s: TypeShape) -> SchemaPrimitive
    decreases s,
{
    match s {
        TypeShape::Boolean => SchemaPrimitive::Boolean,
        TypeShape::Integer => SchemaPrimitive::Integer,
        TypeShape::Float => SchemaPrimitive::Number,
        TypeShape::Text => SchemaPrimitive::Str,
        TypeShape::Optional(inner) => spec_primitive_of(*inner),
        TypeShape::List(_) => SchemaPrimitive::Array,
        TypeShape::Other => SchemaPrimitive::Object,
    }
}

/// The element primitive of a list shape, seen through any optional
/// wrappers; `None` for a shape that is not a list. Only the
/// element's own top-level primitive is reported: an `items` schema
/// never recurses deeper than one container level.
pub open spec fn spec_element_of(s: TypeShape) -> Option<SchemaPrimitive>
    decreases s,
{
    match s {
        TypeShape::Optional(inner) => spec_element_of(*inner),
        TypeShape::List(inner) => Some(spec_primitive_of(*inner)),
        _ => None,
    }
}

/// Classifies a declared type shape: its schema primitive and, for a
/// list shape, the primitive of its element. Total: no shape is
/// rejected.
pub fn classify(s: &TypeShape) -> (r: (SchemaPrimitive, Option<SchemaPrimitive>))
    ensures
        r.0 == spec_primitive_of(*s),
        r.1 == spec_element_of(*s),
    decreases *s,
{
    match s {
        TypeShape::Boolean => (SchemaPrimitive::Boolean, None),
        TypeShape::Integer => (SchemaPrimitive::Integer, None),
        TypeShape::Float => (SchemaPrimitive::Number, None),
        TypeShape::Text => (SchemaPrimitive::Str, None),
        TypeShape::Optional(inner) => classify(inner),
        TypeShape::List(inner) => {
            let (elem, _) = classify(inner);
            (SchemaPrimitive::Array, Some(elem))
        },
        TypeShape::Other => (SchemaPrimitive::Object, None),
    }
}

/// The name under which a schema primitive appears in a schema
/// document.
pub open spec fn spec_primitive_name(p: SchemaPrimitive) -> Seq<char> {
    match p {
        SchemaPrimitive::Boolean => "boolean"@,
        SchemaPrimitive::Integer => "integer"@,
        SchemaPrimitive::Number => "number"@,
        SchemaPrimitive::Str => "string"@,
        SchemaPrimitive::Array => "array"@,
        SchemaPrimitive::Object => "object"@,
    }
}

/// Returns the schema-document name of a primitive.
pub fn primitive_name(p: SchemaPrimitive) -> (r: &'static str)
    ensures
        r@ == spec_primitive_name(p),
{
    match p {
        SchemaPrimitive::Boolean => "boolean",
        SchemaPrimitive::Integer => "integer",
        SchemaPrimitive::Number => "number",
        SchemaPrimitive::Str => "string",
        SchemaPrimitive::Array => "array",
        SchemaPrimitive::Object => "object",
    }
}

} // verus!
