//! Reading the artifact document out of JSON. The parser's tree is held as
//! plain data (`Json`); the decoder is tolerant: a part that is missing or
//! of another shape than expected reads as absent or empty.
use vstd::prelude::*;
use serde_json::Value;
use crate::model::{Document, FieldDefinition, FieldSnapshot, OptionDefinition, OptionRef, RiskError};

verus! {

#[verifier::external_type_specification]
#[verifier::external_body]
pub struct ExValue(serde_json::Value);

#[verifier::external_type_specification]
#[verifier::external_body]
pub struct ExError(serde_json::Error);

/// A parsed JSON value, with its compact JSON text.
#[derive(Debug)]
pub struct Json {
    pub node: JsonNode,
    pub text: String,
}

/// The kind of a JSON value and its contents. A number keeps its value
/// when it is an integer that fits in 64 bits.
#[derive(Debug)]
pub enum JsonNode {
    Null,
    Bool(bool),
    Number(Option<i64>),
    Text(String),
    Array(Vec<Json>),
    Object(Vec<(String, Json)>),
}

/// The JSON value that serde_json reads from `input`, if the input is JSON.
pub uninterp spec fn json_of(input: Seq<u8>) -> Option<Json>;

/// Relies on serde_json::from_slice: whether the bytes are JSON, and the
/// value they hold, depend on the bytes alone.
#[verifier::external_body]
fn parse_json(input: &[u8]) -> (r: Result<Json, serde_json::Error>)
    ensures
        (r is Ok) == (json_of(input@) is Some),
        r is Ok ==> r->Ok_0 == json_of(input@)->Some_0,
{
    serde_json::from_slice::<Value>(input).map(|v| json_from_value(&v))
}

/// Relies on serde_json's Value variants, Number::as_i64 and Display for
/// Value: converts serde_json's tree into `Json`, variant for variant.
#[verifier::external_body]
fn json_from_value(v: &Value) -> Json {
    let node = match v {
        Value::Null => JsonNode::Null,
        Value::Bool(b) => JsonNode::Bool(*b),
        Value::Number(n) => JsonNode::Number(n.as_i64()),
        Value::String(s) => JsonNode::Text(s.clone()),
        Value::Array(a) => JsonNode::Array(a.iter().map(json_from_value).collect()),
        Value::Object(o) => JsonNode::Object(o.iter().map(|(k, x)| (k.clone(), json_from_value(x))).collect()),
    };
    Json { node, text: v.to_string() }
}

/// Relies on serde_json's Display for Error: its diagnostic text.
#[verifier::external_body]
fn error_text(e: &serde_json::Error) -> String {
    e.to_string()
}

/// Index of the first member at or after `i` named `key`.
pub open spec fn first_key(m: Seq<(String, Json)>, key: Seq<char>, i: int) -> Option<int>
    decreases m.len() - i,
{
    if i < 0 || i >= m.len() {
        None
    } else if m[i].0@ == key {
        Some(i)
    } else {
        first_key(m, key, i + 1)
    }
}

/// The member `key` of `j`, when `j` is an object that has one.
pub open spec fn member_of(j: Option<Json>, key: Seq<char>) -> Option<Json> {
    match j {
        Some(v) => match v.node {
            JsonNode::Object(m) => match first_key(m@, key, 0) {
                Some(i) => Some(m@[i].1),
                None => None,
            },
            _ => None,
        },
        None => None,
    }
}

/// The text of `j`, when it is a JSON string.
pub open spec fn text_of(j: Option<Json>) -> Option<String> {
    match j {
        Some(v) => match v.node {
            JsonNode::Text(s) => Some(s),
            _ => None,
        },
        None => None,
    }
}

/// The elements of `j`, when it is a JSON array.
pub open spec fn array_of(j: Option<Json>) -> Option<Seq<Json>> {
    match j {
        Some(v) => match v.node {
            JsonNode::Array(a) => Some(a@),
            _ => None,
        },
        None => None,
    }
}

/// The elements of `j` when it is a JSON array, else none.
pub open spec fn items_of(j: Option<Json>) -> Seq<Json> {
    match array_of(j) {
        Some(a) => a,
        None => Seq::empty(),
    }
}

/// The 64-bit integer `j` holds, when it is one.
pub open spec fn int_of(j: Option<Json>) -> Option<i64> {
    match j {
        Some(v) => match v.node {
            JsonNode::Number(n) => n,
            _ => None,
        },
        None => None,
    }
}

pub open spec fn snapshot_decodes(j: Json, f: FieldSnapshot) -> bool {
    let items = items_of(member_of(Some(j), "values"@));
    &&& f.label == text_of(member_of(Some(j), "label"@))
    &&& f.values@.len() == items.len()
    &&& forall|i: int| 0 <= i < items.len() ==> (#[trigger] f.values@[i]).label == text_of(member_of(Some(items[i]), "label"@))
}

/// The JSON text of an option's identifier, when it has one.
pub open spec fn id_text_of(j: Json) -> Option<String> {
    match member_of(Some(j), "id"@) {
        Some(m) => Some(m.text),
        None => None,
    }
}

pub open spec fn option_decodes(j: Json, o: OptionDefinition) -> bool {
    &&& o.label == text_of(member_of(Some(j), "label"@))
    &&& o.id == id_text_of(j)
}

pub open spec fn definition_decodes(j: Json, d: FieldDefinition) -> bool {
    &&& d.label == text_of(member_of(Some(j), "label"@))
    &&& d.field_id == int_of(member_of(Some(j), "field_id"@))
    &&& match array_of(member_of(Some(j), "values"@)) {
        None => d.values is None,
        Some(items) => d.values is Some && d.values->Some_0@.len() == items.len()
            && forall|i: int| 0 <= i < items.len() ==> option_decodes(items[i], #[trigger] d.values->Some_0@[i]),
    }
}

/// `d` is what the tolerant decoder reads from `j`: the snapshots under
/// `current.values` and the field definitions under `tracker.fields`, each
/// in order; labels when they are strings, `values` when they are arrays,
/// `field_id` when it is a 64-bit integer, option identifiers as JSON text.
pub open spec fn decodes(j: Json, d: Document) -> bool {
    let snaps = items_of(member_of(member_of(Some(j), "current"@), "values"@));
    let defs = items_of(member_of(member_of(Some(j), "tracker"@), "fields"@));
    &&& d.current_values@.len() == snaps.len()
    &&& forall|i: int| 0 <= i < snaps.len() ==> snapshot_decodes(snaps[i], #[trigger] d.current_values@[i])
    &&& d.tracker_fields@.len() == defs.len()
    &&& forall|i: int| 0 <= i < defs.len() ==> definition_decodes(defs[i], #[trigger] d.tracker_fields@[i])
}

/// A document that the decoder reads from `j`.
pub open spec fn document_of(j: Json) -> Document {
    choose|d: Document| decodes(j, d)
}

/// The member `key` of `v`, when `v` is an object that has one.
pub fn member<'a>(v: Option<&'a Json>, key: &str) -> (r: Option<&'a Json>)
    ensures
        match r {
            Some(y) => v is Some && member_of(Some(*v->Some_0), key@) == Some(*y),
            None => v is None || member_of(Some(*v->Some_0), key@) is None,
        },
{
    match v {
        Some(x) => match &x.node {
            JsonNode::Object(m) => {
                let want = String::from_str(key);
                let mut i: usize = 0;
                while i < m.len()
                    invariant
                        i <= m@.len(),
                        want@ == key@,
                        v == Some(x),
                        x.node == JsonNode::Object(*m),
                        first_key(m@, key@, 0) == first_key(m@, key@, i as int),
                    decreases m.len() - i,
                {
                    if m[i].0 == want {
                        assert(first_key(m@, key@, i as int) == Some(i as int));
                        return Some(&m[i].1);
                    }
                    i = i + 1;
                }
                None
            },
            _ => None,
        },
        None => None,
    }
}

/// The text of `j`, when it is a JSON string.
fn text(j: Option<&Json>) -> (r: Option<String>)
    ensures
        r == text_of(match j { Some(x) => Some(*x), None => None }),
{
    match j {
        Some(x) => match &x.node {
            JsonNode::Text(s) => Some(s.clone()),
            _ => None,
        },
        None => None,
    }
}

/// The elements of `j`, when it is a JSON array.
fn array<'a>(j: Option<&'a Json>) -> (r: Option<&'a Vec<Json>>)
    ensures
        match r {
            Some(a) => array_of(match j { Some(x) => Some(*x), None => None }) == Some(a@),
            None => array_of(match j { Some(x) => Some(*x), None => None }) is None,
        },
{
    match j {
        Some(x) => match &x.node {
            JsonNode::Array(a) => Some(a),
            _ => None,
        },
        None => None,
    }
}

fn decode_snapshot(j: &Json) -> (r: FieldSnapshot)
    ensures
        snapshot_decodes(*j, r),
{
    let mut values: Vec<OptionRef> = Vec::new();
    let items = array(member(Some(j), "values"));
    let ghost expected = items_of(member_of(Some(*j), "values"@));
    match items {
        Some(items) => {
            let mut i: usize = 0;
            while i < items.len()
                invariant
                    i <= items@.len(),
                    items@ == expected,
                    values@.len() == i,
                    forall|k: int| 0 <= k < i ==> (#[trigger] values@[k]).label == text_of(member_of(Some(expected[k]), "label"@)),
                decreases items.len() - i,
            {
                values.push(OptionRef { label: text(member(Some(&items[i]), "label")) });
                i = i + 1;
            }
        },
        None => {},
    }
    FieldSnapshot { label: text(member(Some(j), "label")), values }
}

fn decode_option(j: &Json) -> (r: OptionDefinition)
    ensures
        option_decodes(*j, r),
{
    let id = match member(Some(j), "id") {
        Some(m) => Some(m.text.clone()),
        None => None,
    };
    OptionDefinition { id, label: text(member(Some(j), "label")) }
}

fn decode_definition(j: &Json) -> (r: FieldDefinition)
    ensures
        definition_decodes(*j, r),
{
    let ghost expected = array_of(member_of(Some(*j), "values"@));
    let values = match array(member(Some(j), "values")) {
        Some(items) => {
            let mut decoded: Vec<OptionDefinition> = Vec::new();
            let mut i: usize = 0;
            while i < items.len()
                invariant
                    i <= items@.len(),
                    Some(items@) == expected,
                    decoded@.len() == i,
                    forall|k: int| 0 <= k < i ==> option_decodes(items@[k], #[trigger] decoded@[k]),
                decreases items.len() - i,
            {
                decoded.push(decode_option(&items[i]));
                i = i + 1;
            }
            Some(decoded)
        },
        None => None,
    };
    let field_id = match member(Some(j), "field_id") {
        Some(m) => match m.node {
            JsonNode::Number(n) => n,
            _ => None,
        },
        None => None,
    };
    FieldDefinition { label: text(member(Some(j), "label")), field_id, values }
}

/// Reads the artifact document out of a JSON value.
pub fn decode_document(j: &Json) -> (r: Document)
    ensures
        decodes(*j, r),
{
    let ghost snaps = items_of(member_of(member_of(Some(*j), "current"@), "values"@));
    let ghost defs = items_of(member_of(member_of(Some(*j), "tracker"@), "fields"@));
    let mut current_values: Vec<FieldSnapshot> = Vec::new();
    match array(member(member(Some(j), "current"), "values")) {
        Some(items) => {
            let mut i: usize = 0;
            while i < items.len()
                invariant
                    i <= items@.len(),
                    items@ == snaps,
                    current_values@.len() == i,
                    forall|k: int| 0 <= k < i ==> snapshot_decodes(snaps[k], #[trigger] current_values@[k]),
                decreases items.len() - i,
            {
                current_values.push(decode_snapshot(&items[i]));
                i = i + 1;
            }
        },
        None => {},
    }
    let mut tracker_fields: Vec<FieldDefinition> = Vec::new();
    match array(member(member(Some(j), "tracker"), "fields")) {
        Some(items) => {
            let mut i: usize = 0;
            while i < items.len()
                invariant
                    i <= items@.len(),
                    items@ == defs,
                    tracker_fields@.len() == i,
                    forall|k: int| 0 <= k < i ==> definition_decodes(defs[k], #[trigger] tracker_fields@[k]),
                decreases items.len() - i,
            {
                tracker_fields.push(decode_definition(&items[i]));
                i = i + 1;
            }
        },
        None => {},
    }
    Document { current_values, tracker_fields }
}

/// Parses the input bytes as JSON and reads the document out of them; fails
/// exactly when the bytes are not JSON.
pub fn parse_document(input: &[u8]) -> (r: Result<Document, RiskError>)
    ensures
        match json_of(input@) {
            None => r is Err && r->Err_0 is Malformed,
            Some(j) => r is Ok && decodes(j, r->Ok_0),
        },
{
    match parse_json(input) {
        Ok(j) => Ok(decode_document(&j)),
        Err(e) => Err(RiskError::Malformed(error_text(&e))),
    }
}

} // verus!
