//! Tagged-document payloads carried across the bridge into typed
//! values, starting from the wire-level document representation.

use std::collections::HashMap;

use aws_smithy_types::{Document, Number};

use agent_tools::{document_to_json, ConversionError, JsonValue, NumberValue, TaggedDocument};

/// Reads a wire-level document into the library's tagged-document
/// algebra. Floating-point values are carried as their bit patterns.
fn from_smithy(doc: &Document) -> TaggedDocument {
    match doc {
        Document::Null => TaggedDocument::Null,
        Document::Bool(b) => TaggedDocument::Bool(*b),
        Document::Number(n) => TaggedDocument::Num(match n {
            Number::PosInt(u) => NumberValue::PosInt(*u),
            Number::NegInt(i) => NumberValue::NegInt(*i),
            Number::Float(f) => NumberValue::Float(f.to_bits()),
        }),
        Document::String(s) => TaggedDocument::Text(s.clone()),
        Document::Array(elts) => TaggedDocument::Arr(elts.iter().map(from_smithy).collect()),
        Document::Object(map) => TaggedDocument::Obj(
            map.iter().map(|(k, v)| (k.clone(), from_smithy(v))).collect(),
        ),
    }
}

/// Looks a key up in a converted JSON object.
fn get<'a>(v: &'a JsonValue, key: &str) -> Option<&'a JsonValue> {
    match v {
        JsonValue::Obj(pairs) => pairs.iter().find(|(k, _)| k == key).map(|(_, v)| v),
        _ => None,
    }
}

#[derive(Debug, PartialEq)]
struct RoundTrip {
    answer: i32,
    toggle: Option<bool>,
}

/// Reads a `RoundTrip` record out of a converted JSON object,
/// failing on a missing required field or a wrong primitive as a
/// structural deserializer would.
fn round_trip_from_json(v: &JsonValue) -> Result<RoundTrip, ConversionError> {
    let answer = match get(v, "answer") {
        Some(JsonValue::Num(NumberValue::PosInt(u))) => *u as i32,
        Some(JsonValue::Num(NumberValue::NegInt(i))) => *i as i32,
        _ => {
            return Err(ConversionError::StructuralMismatch(
                "missing field answer".to_string(),
            ))
        }
    };
    let toggle = match get(v, "toggle") {
        Some(JsonValue::Bool(b)) => Some(*b),
        None => None,
        _ => {
            return Err(ConversionError::StructuralMismatch(
                "invalid type for toggle".to_string(),
            ))
        }
    };
    Ok(RoundTrip { answer, toggle })
}

#[test]
fn parses_document_payloads() {
    let mut inner = HashMap::new();
    inner.insert("answer".to_string(), Document::Number(Number::PosInt(42)));
    inner.insert("toggle".to_string(), Document::Bool(true));
    let doc = Document::Object(inner);

    let json = document_to_json(&from_smithy(&doc)).expect("parseable");
    let parsed = round_trip_from_json(&json).expect("parseable");
    assert_eq!(
        parsed,
        RoundTrip {
            answer: 42,
            toggle: Some(true)
        }
    );
}

#[test]
fn absent_optional_field_is_no_mismatch() {
    let mut inner = HashMap::new();
    inner.insert("answer".to_string(), Document::Number(Number::PosInt(42)));
    let doc = Document::Object(inner);

    let json = document_to_json(&from_smithy(&doc)).expect("convertible");
    let parsed = round_trip_from_json(&json).expect("optional field may be absent");
    assert_eq!(
        parsed,
        RoundTrip {
            answer: 42,
            toggle: None
        }
    );
}

#[test]
fn non_finite_float_is_unrepresentable() {
    let mut inner = HashMap::new();
    inner.insert(
        "answer".to_string(),
        Document::Number(Number::Float(f64::NAN)),
    );
    let doc = Document::Object(inner);

    let converted = document_to_json(&from_smithy(&doc));
    assert_eq!(converted, Err(ConversionError::UnrepresentableNumber));

    let infinite = TaggedDocument::Num(NumberValue::Float(f64::INFINITY.to_bits()));
    assert_eq!(
        document_to_json(&infinite),
        Err(ConversionError::UnrepresentableNumber)
    );
}

#[test]
fn document_round_trip_preserves_structure() {
    let doc = TaggedDocument::Obj(vec![
        (
            "values".to_string(),
            TaggedDocument::Arr(vec![
                TaggedDocument::Num(NumberValue::PosInt(7)),
                TaggedDocument::Num(NumberValue::NegInt(-3)),
                TaggedDocument::Num(NumberValue::Float(2.5f64.to_bits())),
            ]),
        ),
        ("label".to_string(), TaggedDocument::Text("x".to_string())),
        ("flag".to_string(), TaggedDocument::Bool(false)),
        ("nothing".to_string(), TaggedDocument::Null),
    ]);
    let json = document_to_json(&doc).expect("finite");
    let back = agent_tools::json_to_document(&json);
    assert_eq!(back, doc);
}

#[test]
fn wrong_primitive_is_a_structural_mismatch() {
    let mut inner = HashMap::new();
    inner.insert("answer".to_string(), Document::Number(Number::PosInt(42)));
    inner.insert(
        "toggle".to_string(),
        Document::String("yes".to_string()),
    );
    let doc = Document::Object(inner);

    let json = document_to_json(&from_smithy(&doc)).expect("convertible");
    match round_trip_from_json(&json) {
        Err(ConversionError::StructuralMismatch(_)) => {}
        other => panic!("expected a structural mismatch, got {:?}", other),
    }
}

#[test]
fn error_messages_describe_the_failure() {
    assert_eq!(
        ConversionError::UnrepresentableNumber.message(),
        "invalid floating-point value in tagged document"
    );
    assert_eq!(
        ConversionError::StructuralMismatch("missing field answer".to_string()).message(),
        "missing field answer"
    );
}
