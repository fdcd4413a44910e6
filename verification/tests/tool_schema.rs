//! Schema generation over a record with an integer, an optional
//! string and a float list, checked through the JSON value algebra.

use agent_tools::{
    build_json_schema, FieldDescriptor, JsonValue, NumberValue, TypeShape,
};

/// Renders a library JSON value as a `serde_json` value.
fn to_serde(v: &JsonValue) -> serde_json::Value {
    match v {
        JsonValue::Null => serde_json::Value::Null,
        JsonValue::Bool(b) => serde_json::Value::Bool(*b),
        JsonValue::Num(n) => serde_json::Value::Number(match n {
            NumberValue::PosInt(u) => serde_json::Number::from(*u),
            NumberValue::NegInt(i) => serde_json::Number::from(*i),
            NumberValue::Float(bits) => {
                serde_json::Number::from_f64(f64::from_bits(*bits)).expect("finite float")
            }
        }),
        JsonValue::Text(s) => serde_json::Value::String(s.clone()),
        JsonValue::Arr(elts) => {
            serde_json::Value::Array(elts.iter().map(to_serde).collect())
        }
        JsonValue::Obj(pairs) => serde_json::Value::Object(
            pairs.iter().map(|(k, v)| (k.clone(), to_serde(v))).collect(),
        ),
    }
}

fn t_tool_fields() -> Vec<FieldDescriptor> {
    vec![
        FieldDescriptor {
            name: "a".to_string(),
            description: Some("a".to_string()),
            required: true,
            shape: TypeShape::Integer,
        },
        FieldDescriptor {
            name: "b".to_string(),
            description: Some("b".to_string()),
            required: false,
            shape: TypeShape::Optional(Box::new(TypeShape::Text)),
        },
        FieldDescriptor {
            name: "c".to_string(),
            description: None,
            required: false,
            shape: TypeShape::List(Box::new(TypeShape::Float)),
        },
    ]
}

#[test]
fn schema_has_shape() {
    let schema = to_serde(&build_json_schema(&t_tool_fields()));
    let obj = schema.as_object().expect("object schema");
    assert_eq!(obj.get("type").unwrap().as_str(), Some("object"));
    let props = obj.get("properties").unwrap().as_object().unwrap();
    assert_eq!(
        props.get("a").unwrap().get("type").unwrap().as_str(),
        Some("integer")
    );
    assert_eq!(
        props.get("b").unwrap().get("type").unwrap().as_str(),
        Some("string")
    );
    assert_eq!(
        props.get("c").unwrap().get("type").unwrap().as_str(),
        Some("array")
    );
    let required = obj.get("required").unwrap().as_array().unwrap();
    assert!(required.iter().any(|v| v.as_str() == Some("a")));
}

#[test]
fn float_fields_give_number_schema() {
    let fields = vec![
        FieldDescriptor {
            name: "latitude".to_string(),
            description: None,
            required: true,
            shape: TypeShape::Float,
        },
        FieldDescriptor {
            name: "longitude".to_string(),
            description: None,
            required: true,
            shape: TypeShape::Float,
        },
    ];
    let schema = to_serde(&build_json_schema(&fields));
    let expected: serde_json::Value = serde_json::from_str(
        "{\"type\":\"object\",\
          \"properties\":{\"latitude\":{\"type\":\"number\"},\
                          \"longitude\":{\"type\":\"number\"}},\
          \"required\":[\"latitude\",\"longitude\"]}",
    )
    .unwrap();
    assert_eq!(schema, expected);
}

#[test]
fn string_list_gives_array_schema_without_required() {
    let fields = vec![FieldDescriptor {
        name: "tags".to_string(),
        description: None,
        required: false,
        shape: TypeShape::List(Box::new(TypeShape::Text)),
    }];
    let schema = to_serde(&build_json_schema(&fields));
    let expected: serde_json::Value = serde_json::from_str(
        "{\"type\":\"object\",\
          \"properties\":{\"tags\":{\"type\":\"array\",\"items\":{\"type\":\"string\"}}}}",
    )
    .unwrap();
    assert_eq!(schema, expected);
    assert!(schema.as_object().unwrap().get("required").is_none());
}

#[test]
fn parameter_schema_is_bare_object() {
    let schema = to_serde(&agent_tools::parameter_schema());
    let expected: serde_json::Value =
        serde_json::from_str("{\"type\":\"object\"}").unwrap();
    assert_eq!(schema, expected);
}
