//! Two records described side by side: name resolution is local to
//! each record, and building both specifications does not interfere.

use agent_tools::{build_tool_specification, FieldDescriptor, RecordDescriptor, TypeShape};

fn first_tool() -> RecordDescriptor {
    RecordDescriptor {
        type_ident: "FirstTool".to_string(),
        tool_name: Some("first".to_string()),
        tool_description: Some("First tool".to_string()),
        fields: vec![FieldDescriptor {
            name: "a".to_string(),
            description: None,
            required: true,
            shape: TypeShape::Integer,
        }],
    }
}

fn second_tool() -> RecordDescriptor {
    RecordDescriptor {
        type_ident: "SecondTool".to_string(),
        tool_name: None,
        tool_description: Some("Second tool".to_string()),
        fields: vec![FieldDescriptor {
            name: "flag".to_string(),
            description: None,
            required: true,
            shape: TypeShape::Boolean,
        }],
    }
}

#[test]
fn derives_do_not_conflict() {
    assert_eq!(first_tool().resolved_name(), "first");
    assert_eq!(second_tool().resolved_name(), "SecondTool");

    let _spec = build_tool_specification(&first_tool());
    let _spec = build_tool_specification(&second_tool());
}

#[test]
fn tool_specification_carries_name_and_description() {
    let spec = build_tool_specification(&second_tool());
    assert_eq!(spec.name, "SecondTool");
    assert_eq!(spec.description.as_deref(), Some("Second tool"));
}
