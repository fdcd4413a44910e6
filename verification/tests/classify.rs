//! The type classifier's mapping table, and the agreement of the two
//! schema outputs.

use agent_tools::{
    build_json_schema, build_tool_specification, classify, document_to_json, FieldDescriptor,
    RecordDescriptor, SchemaPrimitive, TypeShape,
};

#[test]
fn classifier_follows_the_table() {
    assert_eq!(classify(&TypeShape::Boolean), (SchemaPrimitive::Boolean, None));
    assert_eq!(classify(&TypeShape::Integer), (SchemaPrimitive::Integer, None));
    assert_eq!(classify(&TypeShape::Float), (SchemaPrimitive::Number, None));
    assert_eq!(classify(&TypeShape::Text), (SchemaPrimitive::Str, None));
    assert_eq!(classify(&TypeShape::Other), (SchemaPrimitive::Object, None));
}

#[test]
fn optional_wrapping_is_stripped() {
    assert_eq!(
        classify(&TypeShape::Optional(Box::new(TypeShape::Integer))),
        (SchemaPrimitive::Integer, None)
    );
    assert_eq!(
        classify(&TypeShape::Optional(Box::new(TypeShape::List(Box::new(
            TypeShape::Boolean
        ))))),
        (SchemaPrimitive::Array, Some(SchemaPrimitive::Boolean))
    );
}

#[test]
fn list_reports_element_primitive() {
    assert_eq!(
        classify(&TypeShape::List(Box::new(TypeShape::Text))),
        (SchemaPrimitive::Array, Some(SchemaPrimitive::Str))
    );
    // One container level only: a list of lists reports `array` for
    // its element, not a nested items schema.
    assert_eq!(
        classify(&TypeShape::List(Box::new(TypeShape::List(Box::new(
            TypeShape::Integer
        ))))),
        (SchemaPrimitive::Array, Some(SchemaPrimitive::Array))
    );
}

#[test]
fn both_schema_outputs_agree() {
    let rec = RecordDescriptor {
        type_ident: "Weather".to_string(),
        tool_name: None,
        tool_description: Some("A tool to get the weather".to_string()),
        fields: vec![
            FieldDescriptor {
                name: "latitude".to_string(),
                description: Some("The latitude of the location".to_string()),
                required: true,
                shape: TypeShape::Float,
            },
            FieldDescriptor {
                name: "tags".to_string(),
                description: None,
                required: false,
                shape: TypeShape::List(Box::new(TypeShape::Text)),
            },
        ],
    };
    let spec = build_tool_specification(&rec);
    let bridged = document_to_json(&spec.input_schema).expect("schema documents are finite");
    assert_eq!(bridged, build_json_schema(&rec.fields));
}
