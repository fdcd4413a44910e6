//! The schema assembler: from an ordered descriptor list to a
//! JSON-Schema-shaped document and to the equivalent tool
//! specification in the tagged-document algebra. One algorithm
//! serves both outputs: the tagged-document schema is the JSON
//! schema carried across the bridge.

use vstd::prelude::*;
use vstd::string::StringExecFns;
use crate::shape::{spec_primitive_of, spec_element_of, spec_primitive_name, classify,
    primitive_name};
use crate::descriptor::{FieldDescriptor, SpecFieldDescriptor, RecordDescriptor, spec_fields,
    spec_resolved_name};
use crate::json::{JsonValue, SpecJsonValue, json_floats_finite};
use crate::tagged::{TaggedDocument, SpecTaggedDocument, doc_floats_finite};
use crate::bridge::{json_to_doc_spec, doc_to_json_spec, json_to_document, lemma_json_round_trip,
    lemma_json_to_doc_finite};

verus! {

/// The property entry of one field: its schema primitive as `type`,
/// its description when it has one, and for a list shape an `items`
/// entry holding the element's primitive.
pub open spec fn spec_property(f: SpecFieldDescriptor) -> SpecJsonValue {
    let base = seq![
        ("type"@, SpecJsonValue::Text(spec_primitive_name(spec_primitive_of(f.shape)))),
    ];
    let with_desc = match f.description {
        Option::Some(dsc) => base.push(("description"@, SpecJsonValue::Text(dsc))),
        Option::None => base,
    };
    let with_items = match spec_element_of(f.shape) {
        Option::Some(e) => with_desc.push(
            (
                "items"@,
                SpecJsonValue::Obj(seq![("type"@, SpecJsonValue::Text(spec_primitive_name(e)))]),
            ),
        ),
        Option::None => with_desc,
    };
    SpecJsonValue::Obj(with_items)
}

/// The properties map: one entry per field, keyed by the field's
/// name, in declaration order.
pub open spec fn spec_properties(fields: Seq<SpecFieldDescriptor>) -> Seq<
    (Seq<char>, SpecJsonValue),
> {
    fields.map_values(|f: SpecFieldDescriptor| (f.name, spec_property(f)))
}

/// The names of the required fields, in declaration order.
pub open spec fn spec_required_names(fields: Seq<SpecFieldDescriptor>) -> Seq<Seq<char>>
    decreases fields.len(),
{
    if fields.len() == 0 {
        Seq::empty()
    } else {
        let rest = spec_required_names(fields.drop_last());
        if fields.last().required {
            rest.push(fields.last().name)
        } else {
            rest
        }
    }
}

/// The JSON Schema document of a descriptor list: an object schema
/// with a `properties` map, and a `required` list exactly when at
/// least one field is required.
pub open spec fn spec_json_schema(fields: Seq<SpecFieldDescriptor>) -> SpecJsonValue {
    let base = seq![
        ("type"@, SpecJsonValue::Text("object"@)),
        ("properties"@, SpecJsonValue::Obj(spec_properties(fields))),
    ];
    let req = spec_required_names(fields);
    if req.len() == 0 {
        SpecJsonValue::Obj(base)
    } else {
        SpecJsonValue::Obj(
            base.push(
                ("required"@, SpecJsonValue::Arr(req.map_values(|n: Seq<char>| SpecJsonValue::Text(n)))),
            ),
        )
    }
}

/// The same schema expressed in the tagged-document algebra.
pub open spec fn spec_schema_document(fields: Seq<SpecFieldDescriptor>) -> SpecTaggedDocument {
    json_to_doc_spec(spec_json_schema(fields))
}

/// Builds the JSON Schema document for a descriptor list.
/// Generation is total: it cannot fail on any descriptor list.
#[verifier::loop_isolation(false)]
pub fn build_json_schema(fields: &Vec<FieldDescriptor>) -> (r: JsonValue)
    ensures
        r@ == spec_json_schema(spec_fields(fields@)),
{
    let ghost descs = spec_fields(fields@);
    let mut props: Vec<(String, JsonValue)> = Vec::new();
    let mut req: Vec<JsonValue> = Vec::new();
    let mut i: usize = 0;
    while i < fields.len()
        invariant
            i <= fields@.len(),
            props@.len() == i,
            forall|j: int|
                0 <= j < i ==> (#[trigger] props@[j]).0@ == descs[j].name && props@[j].1@
                    == spec_property(descs[j]),
            req@.map_values(|v: JsonValue| v@) == spec_required_names(descs.subrange(0, i as int)).map_values(
                |n: Seq<char>| SpecJsonValue::Text(n),
            ),
        decreases fields@.len() - i,
    {
        let f = &fields[i];
        let ghost req0 = req@;
        let ghost rn_pre = spec_required_names(descs.subrange(0, i as int));
        let (prim, elem) = classify(&f.shape);
        let mut entry: Vec<(String, JsonValue)> = Vec::new();
        entry.push(
            (String::from_str("type"), JsonValue::Text(String::from_str(primitive_name(prim)))),
        );
        match &f.description {
            Option::Some(dsc) => {
                entry.push((String::from_str("description"), JsonValue::Text(dsc.clone())));
            },
            Option::None => {},
        }
        match elem {
            Option::Some(e) => {
                let mut items: Vec<(String, JsonValue)> = Vec::new();
                items.push(
                    (
                        String::from_str("type"),
                        JsonValue::Text(String::from_str(primitive_name(e))),
                    ),
                );
                let items_val = JsonValue::Obj(items);
                proof {
                    reveal_with_fuel(crate::json::json_view, 3);
                    let iv = items_val@->Obj_0;
                    let isv = seq![("type"@, SpecJsonValue::Text(spec_primitive_name(e)))];
                    assert(iv[0].0 == isv[0].0);
                    assert(iv[0].1 == isv[0].1);
                    assert(iv =~~= isv);
                    assert(items_val@ =~~= SpecJsonValue::Obj(isv));
                }
                entry.push((String::from_str("items"), items_val));
            },
            Option::None => {},
        }
        let entry_val = JsonValue::Obj(entry);
        proof {
            let fd = descs[i as int];
            assert(fd == fields@[i as int]@);
            let ev = entry_val@->Obj_0;
            let sv = spec_property(fd)->Obj_0;
            assert(ev.len() == sv.len());
            assert forall|k: int| 0 <= k < ev.len() implies #[trigger] ev[k] == sv[k] by {
                reveal_with_fuel(crate::json::json_view, 4);
                assert(ev[k].0 == sv[k].0);
                assert(ev[k].1 =~~= sv[k].1);
            }
            assert(ev =~~= sv);
            assert(entry_val@ =~~= spec_property(fd));
        }
        props.push((f.name.clone(), entry_val));
        if f.required {
            req.push(JsonValue::Text(f.name.clone()));
        }
        proof {
            let pre = descs.subrange(0, i as int);
            let post = descs.subrange(0, i as int + 1);
            assert(post.drop_last() =~= pre);
            assert(post.last() == descs[i as int]);
            let rn_post = spec_required_names(post);
            assert(rn_post == if descs[i as int].required { rn_pre.push(descs[i as int].name) } else { rn_pre });
            let lhs = req@.map_values(|v: JsonValue| v@);
            let rhs = rn_post.map_values(|n: Seq<char>| SpecJsonValue::Text(n));
            assert(req0.map_values(|v: JsonValue| v@) == rn_pre.map_values(
                |n: Seq<char>| SpecJsonValue::Text(n),
            ));
            assert(req0.len() == rn_pre.len());
            assert(lhs.len() == rhs.len());
            assert forall|k: int| 0 <= k < lhs.len() implies #[trigger] lhs[k] == rhs[k] by {
                assert(lhs[k] == req@[k]@);
                assert(rhs[k] == SpecJsonValue::Text(rn_post[k]));
                if k < req0.len() {
                    assert(req@[k] == req0[k]);
                    assert(req0.map_values(|v: JsonValue| v@)[k] == req0[k]@);
                    assert(rn_pre.map_values(|n: Seq<char>| SpecJsonValue::Text(n))[k]
                        == SpecJsonValue::Text(rn_pre[k]));
                    assert(rn_post[k] == rn_pre[k]);
                } else {
                    assert(descs[i as int].required);
                    assert(req@[k]@ == SpecJsonValue::Text(descs[i as int].name));
                    assert(rn_post[k] == descs[i as int].name);
                }
            }
            assert(lhs =~= rhs);
        }
        i += 1;
    }
    proof {
        assert(descs.subrange(0, descs.len() as int) =~= descs);
    }
    let props_val = JsonValue::Obj(props);
    proof {
        let pv = props_val@->Obj_0;
        let sp = spec_properties(descs);
        assert(pv.len() == sp.len());
        assert forall|k: int| 0 <= k < pv.len() implies #[trigger] pv[k] == sp[k] by {
            assert(pv[k].0 == props@[k].0@);
            assert(pv[k].1 == props@[k].1@);
            assert(sp[k] == (descs[k].name, spec_property(descs[k])));
        }
        assert(pv =~~= sp);
        assert(props_val@ =~~= SpecJsonValue::Obj(sp));
    }
    let mut root: Vec<(String, JsonValue)> = Vec::new();
    root.push((String::from_str("type"), JsonValue::Text(String::from_str("object"))));
    root.push((String::from_str("properties"), props_val));
    if req.len() > 0 {
        let req_val = JsonValue::Arr(req);
        proof {
            let rv = req_val@->Arr_0;
            let rn = spec_required_names(descs).map_values(|n: Seq<char>| SpecJsonValue::Text(n));
            assert(rv.len() == rn.len());
            assert forall|k: int| 0 <= k < rv.len() implies #[trigger] rv[k] == rn[k] by {
                assert(rv[k] == req@[k]@);
                assert(req@.map_values(|v: JsonValue| v@)[k] == req@[k]@);
            }
            assert(rv =~~= rn);
        }
        root.push((String::from_str("required"), req_val));
    }
    let r = JsonValue::Obj(root);
    proof {
        let rt = r@->Obj_0;
        let st = spec_json_schema(descs)->Obj_0;
        assert(rt.len() == st.len());
        assert forall|k: int| 0 <= k < rt.len() implies #[trigger] rt[k] == st[k] by {
            assert(rt[k].0 == root@[k].0@);
            assert(rt[k].1 == root@[k].1@);
        }
        assert(rt =~~= st);
        assert(r@ =~~= spec_json_schema(descs));
    }
    r
}

/// A tool specification: the record-level wrapper describing an
/// invocable capability, with the input schema expressed in the
/// tagged-document algebra.
#[derive(Debug, PartialEq)]
pub struct ToolSpecification {
    /// The tool's name.
    pub name: String,
    /// The tool's description; absent when the record declared none.
    pub description: Option<String>,
    /// The schema of the tool's input.
    pub input_schema: TaggedDocument,
}

/// Builds the tool specification for a record: its resolved name,
/// its description carried verbatim (or omitted), and the input
/// schema as a tagged document. Generation is total.
pub fn build_tool_specification(rec: &RecordDescriptor) -> (r: ToolSpecification)
    ensures
        r.name@ == spec_resolved_name(rec@),
        (match r.description {
            Option::Some(d) => Option::Some(d@),
            Option::None => Option::None,
        }) == rec@.tool_description,
        r.input_schema@ == spec_schema_document(rec@.fields),
{
    let name = rec.resolved_name();
    let description = match &rec.tool_description {
        Option::Some(d) => Option::Some(d.clone()),
        Option::None => Option::None,
    };
    let schema = build_json_schema(&rec.fields);
    let input_schema = json_to_document(&schema);
    ToolSpecification { name, description, input_schema }
}

/// The schema of a parameter type that declares no fields of its
/// own: a bare object schema.
pub fn parameter_schema() -> (r: JsonValue)
    ensures
        r@ == SpecJsonValue::Obj(seq![("type"@, SpecJsonValue::Text("object"@))]),
{
    let mut pairs: Vec<(String, JsonValue)> = Vec::new();
    pairs.push((String::from_str("type"), JsonValue::Text(String::from_str("object"))));
    let r = JsonValue::Obj(pairs);
    proof {
        reveal_with_fuel(crate::json::json_view, 3);
        let pv = r@->Obj_0;
        let sv = seq![("type"@, SpecJsonValue::Text("object"@))];
        assert(pv[0].0 == sv[0].0);
        assert(pv[0].1 == sv[0].1);
        assert(pv =~~= sv);
        assert(r@ =~~= SpecJsonValue::Obj(sv));
    }
    r
}

/// Law: the properties map of a generated schema is keyed exactly by
/// the descriptors' field names, in declaration order: one entry per
/// field and no extras.
pub proof fn lemma_schema_property_names(fields: Seq<SpecFieldDescriptor>)
    ensures
        spec_properties(fields).len() == fields.len(),
        forall|i: int|
            0 <= i < fields.len() ==> (#[trigger] spec_properties(fields)[i]).0 == fields[i].name,
        spec_properties(fields).map_values(|p: (Seq<char>, SpecJsonValue)| p.0) == fields.map_values(
            |f: SpecFieldDescriptor| f.name,
        ),
        spec_properties(fields).map_values(|p: (Seq<char>, SpecJsonValue)| p.0).to_set()
            == fields.map_values(|f: SpecFieldDescriptor| f.name).to_set(),
{
    assert(spec_properties(fields).map_values(|p: (Seq<char>, SpecJsonValue)| p.0)
        =~= fields.map_values(|f: SpecFieldDescriptor| f.name));
}

/// Law: the required names are exactly the names of the fields
/// marked required, in declaration order.
pub proof fn lemma_required_names_exact(fields: Seq<SpecFieldDescriptor>)
    ensures
        spec_required_names(fields) == fields.filter(|f: SpecFieldDescriptor| f.required).map_values(
            |f: SpecFieldDescriptor| f.name,
        ),
    decreases fields.len(),
{
    reveal(Seq::filter);
    let pred = |f: SpecFieldDescriptor| f.required;
    let name_of = |f: SpecFieldDescriptor| f.name;
    if fields.len() == 0 {
        assert(spec_required_names(fields) =~= fields.filter(pred).map_values(name_of));
    } else {
        lemma_required_names_exact(fields.drop_last());
        assert(fields.drop_last().filter(pred).map_values(name_of).push(fields.last().name)
            =~= fields.drop_last().filter(pred).push(fields.last()).map_values(name_of));
        assert(spec_required_names(fields) =~= fields.filter(pred).map_values(name_of));
    }
}

/// Law: when no field is required the schema holds no `required`
/// entry at all; when at least one is, the schema's last entry is
/// `required`, holding exactly the required names in declaration
/// order.
pub proof fn lemma_required_presence(fields: Seq<SpecFieldDescriptor>)
    ensures
        spec_required_names(fields).len() == 0 ==> forall|i: int|
            0 <= i < spec_json_schema(fields)->Obj_0.len() ==> (#[trigger] spec_json_schema(
                fields,
            )->Obj_0[i]).0 != "required"@,
        spec_required_names(fields).len() > 0 ==> spec_json_schema(fields)->Obj_0.last() == (
            "required"@,
            SpecJsonValue::Arr(
                spec_required_names(fields).map_values(|n: Seq<char>| SpecJsonValue::Text(n)),
            ),
        ),
{
    reveal_strlit("type");
    reveal_strlit("properties");
    reveal_strlit("required");
    if spec_required_names(fields).len() == 0 {
        assert(spec_json_schema(fields)->Obj_0[0].0 == "type"@);
        assert(spec_json_schema(fields)->Obj_0[1].0 == "properties"@);
        assert("type"@.len() == 4);
        assert("properties"@.len() == 10);
        assert("required"@.len() == 8);
    }
}

/// Law: the two schema outputs are structurally isomorphic. The
/// tagged-document schema, carried across the bridge, is exactly the
/// JSON schema; and it contains no unrepresentable number, so the
/// bridge accepts it.
pub proof fn lemma_schema_outputs_isomorphic(fields: Seq<SpecFieldDescriptor>)
    ensures
        doc_to_json_spec(spec_schema_document(fields)) == spec_json_schema(fields),
        doc_floats_finite(spec_schema_document(fields)),
{
    lemma_json_round_trip(spec_json_schema(fields));
    lemma_schema_floats_finite(fields);
    lemma_json_to_doc_finite(spec_json_schema(fields));
}

/// A schema document never contains a number, so every
/// floating-point value in it is vacuously finite.
pub proof fn lemma_schema_floats_finite(fields: Seq<SpecFieldDescriptor>)
    ensures
        json_floats_finite(spec_json_schema(fields)),
{
    let root = spec_json_schema(fields)->Obj_0;
    assert forall|i: int| 0 <= i < root.len() implies json_floats_finite(
        (#[trigger] root[i]).1,
    ) by {
        if i == 1 {
            let props = spec_properties(fields);
            assert forall|j: int| 0 <= j < props.len() implies json_floats_finite(
                (#[trigger] props[j]).1,
            ) by {
                lemma_property_floats_finite(fields[j]);
                assert(props[j].1 == spec_property(fields[j]));
            }
        }
        if i == 2 {
            let req = spec_required_names(fields).map_values(
                |n: Seq<char>| SpecJsonValue::Text(n),
            );
            assert(root[i].1 == SpecJsonValue::Arr(req));
            assert forall|j: int| 0 <= j < req.len() implies json_floats_finite(
                #[trigger] req[j],
            ) by {
                assert(req[j] is Text);
            }
        }
    }
}

/// A property entry holds only strings and a string-valued `items`
/// object: no number appears in it.
proof fn lemma_property_floats_finite(f: SpecFieldDescriptor)
    ensures
        json_floats_finite(spec_property(f)),
{
    let pairs = spec_property(f)->Obj_0;
    assert forall|i: int| 0 <= i < pairs.len() implies json_floats_finite(
        (#[trigger] pairs[i]).1,
    ) by {
        match pairs[i].1 {
            SpecJsonValue::Obj(inner) => {
                assert forall|j: int| 0 <= j < inner.len() implies json_floats_finite(
                    (#[trigger] inner[j]).1,
                ) by {
                    assert(inner[j].1 is Text);
                }
            },
            _ => {},
        }
    }
}

} // verus!
