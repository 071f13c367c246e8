//! Small JSON documents (notification payloads, audit details) built with serde_json.
use vstd::prelude::*;

verus! {

/// A value in a flat JSON object: a number or a string.
#[derive(Debug, Clone)]
pub enum PayloadValue {
    Int(i64),
    Text(String),
}

/// The mathematical value of a `PayloadValue`.
pub enum PayloadValueView {
    Int(i64),
    Text(Seq<char>),
}

impl View for PayloadValue {
    type V = PayloadValueView;

    open spec fn view(&self) -> PayloadValueView {
        match self {
            PayloadValue::Int(n) => PayloadValueView::Int(*n),
            PayloadValue::Text(s) => PayloadValueView::Text(s@),
        }
    }
}

/// One entry of a flat JSON object.
pub struct PayloadField {
    pub key: String,
    pub value: PayloadValue,
}

/// The view of a list of entries: key and value of each.
pub open spec fn fields_view(fields: Seq<PayloadField>) -> Seq<(Seq<char>, PayloadValueView)> {
    fields.map_values(|f: PayloadField| (f.key@, f.value@))
}

/// The text serde_json writes for the object with the given entries.
pub uninterp spec fn json_object_text(fields: Seq<(Seq<char>, PayloadValueView)>) -> Seq<char>;

/// serde_json: builds a `serde_json::Map` from the entries (later keys replacing earlier
/// ones) and writes `Value::Object(map)` with `to_string`. The contract names the text
/// as a function of the entries; the key order and escaping are serde_json's.
#[verifier::external_body]
pub(crate) fn json_object(fields: &Vec<PayloadField>) -> (s: String)
    ensures
        s@ == json_object_text(fields_view(fields@)),
{
    let mut map = serde_json::Map::new();
    for f in fields.iter() {
        let v = match &f.value {
            PayloadValue::Int(n) => serde_json::Value::from(*n),
            PayloadValue::Text(t) => serde_json::Value::from(t.as_str()),
        };
        map.insert(f.key.clone(), v);
    }
    serde_json::Value::Object(map).to_string()
}

/// An integer entry.
pub fn int_field(key: &str, n: i64) -> (f: PayloadField)
    ensures
        f.key@ == key@,
        f.value@ == PayloadValueView::Int(n),
{
    PayloadField { key: key.to_owned(), value: PayloadValue::Int(n) }
}

/// A text entry.
pub fn text_field(key: &str, t: &str) -> (f: PayloadField)
    ensures
        f.key@ == key@,
        f.value@ == PayloadValueView::Text(t@),
{
    PayloadField { key: key.to_owned(), value: PayloadValue::Text(t.to_owned()) }
}

} // verus!
