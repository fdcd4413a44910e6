//! Schema construction and document bridging for agent tools.
//!
//! A record type is described by an ordered list of field descriptors
//! (name, type shape, required flag, optional description) plus
//! record-level metadata. From such a description the library builds
//! a JSON-Schema-shaped document and an equivalent tool specification
//! in a tagged-document algebra, and it converts tagged-document
//! values into JSON values so that a generic deserializer can produce
//! a typed record instance.

pub mod number;
pub mod shape;
pub mod json;
pub mod tagged;
pub mod descriptor;
pub mod bridge;
pub mod assemble;

pub use number::NumberValue;
pub use shape::{classify, primitive_name, SchemaPrimitive, TypeShape};
pub use json::{JsonValue, SpecJsonValue};
pub use tagged::{TaggedDocument, SpecTaggedDocument};
pub use descriptor::{FieldDescriptor, RecordDescriptor};
pub use bridge::{ConversionError, document_to_json, json_to_document};
pub use assemble::{build_json_schema, build_tool_specification, parameter_schema,
    ToolSpecification};
