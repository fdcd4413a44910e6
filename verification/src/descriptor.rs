//! Field and record descriptors: the already-parsed metadata from
//! which both schema outputs are built. A descriptor list is produced
//! once, when the record type is described, and is immutable.

use vstd::prelude::*;
use crate::shape::TypeShape;

verus! {

/// One record field's schema-relevant metadata.
#[derive(Debug)]
pub struct FieldDescriptor {
    /// The field's name: the schema property key and the lookup key
    /// in tagged-document objects. Unique within a record.
    pub name: String,
    /// Human-readable description, carried verbatim into both schema
    /// outputs when present and omitted entirely when absent.
    pub description: Option<String>,
    /// Whether the field joins the schema's required list.
    pub required: bool,
    /// The declared shape of the field's type.
    pub shape: TypeShape,
}

/// The model of a field descriptor.
pub struct SpecFieldDescriptor {
    pub name: Seq<char>,
    pub description: Option<Seq<char>>,
    pub required: bool,
    pub shape: TypeShape,
}

impl View for FieldDescriptor {
    type V = SpecFieldDescriptor;

    open spec fn view(&self) -> SpecFieldDescriptor {
        SpecFieldDescriptor {
            name: self.name@,
            description: match self.description {
                Option::Some(d) => Option::Some(d@),
                Option::None => Option::None,
            },
            required: self.required,
            shape: self.shape,
        }
    }
}

/// The models of a descriptor list, in declaration order.
pub open spec fn spec_fields(fields: Seq<FieldDescriptor>) -> Seq<SpecFieldDescriptor> {
    fields.map_values(|f: FieldDescriptor| f@)
}

/// A record type's metadata: its own identifier, the optional
/// explicit tool name and description, and its field descriptors.
#[derive(Debug)]
pub struct RecordDescriptor {
    /// The record type's own identifier.
    pub type_ident: String,
    /// An explicit tool name; when absent the type identifier is
    /// used.
    pub tool_name: Option<String>,
    /// The tool's description; omitted from output when absent.
    pub tool_description: Option<String>,
    /// The record's fields, in declaration order.
    pub fields: Vec<FieldDescriptor>,
}

/// The model of a record descriptor.
pub struct SpecRecordDescriptor {
    pub type_ident: Seq<char>,
    pub tool_name: Option<Seq<char>>,
    pub tool_description: Option<Seq<char>>,
    pub fields: Seq<SpecFieldDescriptor>,
}

impl View for RecordDescriptor {
    type V = SpecRecordDescriptor;

    open spec fn view(&self) -> SpecRecordDescriptor {
        SpecRecordDescriptor {
            type_ident: self.type_ident@,
            tool_name: match self.tool_name {
                Option::Some(n) => Option::Some(n@),
                Option::None => Option::None,
            },
            tool_description: match self.tool_description {
                Option::Some(d) => Option::Some(d@),
                Option::None => Option::None,
            },
            fields: spec_fields(self.fields@),
        }
    }
}

/// The name under which a record is published as a tool: the
/// explicit name when one was declared, else the record type's own
/// identifier. The computation is local to the record: no state
/// outside the descriptor takes part in it.
pub open spec fn spec_resolved_name(r: SpecRecordDescriptor) -> Seq<char> {
    match r.tool_name {
        Option::Some(n) => n,
        Option::None => r.type_ident,
    }
}

impl RecordDescriptor {
    /// Returns this record's tool name.
    pub fn resolved_name(&self) -> (r: String)
        ensures
            r@ == spec_resolved_name(self@),
    {
        match &self.tool_name {
            Option::Some(n) => n.clone(),
            Option::None => self.type_ident.clone(),
        }
    }
}

} // verus!
