use vstd::prelude::*;

verus! {

#[verifier::external_type_specification]
#[verifier::external_body]
pub struct ExValue(serde_json::Value);

/// A JSON document, held as plain values.
///
/// The exchange answers with JSON text; decoding works on this shape of
/// it. A number carries both its integer reading, when it is an integer
/// that fits an unsigned machine word, and its exact textual form.
#[derive(Debug)]
pub enum JsonValue {
    /// The JSON null value.
    Null,
    /// A JSON boolean.
    Bool(bool),
    /// A JSON number: its reading as an unsigned integer, if it has
    /// one, beside its textual form.
    Num(Option<u64>, String),
    /// A JSON string.
    Str(String),
    /// A JSON array, in order.
    Arr(Vec<JsonValue>),
    /// A JSON object: its members as key-value pairs.
    Obj(Vec<(String, JsonValue)>),
}

/// The JSON document a text denotes, if it denotes one: what
/// `serde_json` parses the text to, reshaped member by member into
/// `JsonValue`.
pub uninterp spec fn json_of(s: Seq<char>) -> Option<JsonValue>;

/// Relies on `serde_json::from_str` for `serde_json::Value`: the result
/// depends on the text alone, and is an error exactly on text that is
/// not a valid JSON document.
#[verifier::external_body]
pub(crate) fn parse_json(s: &str) -> (r: Option<JsonValue>)
    ensures
        r == json_of(s@),
{
    match serde_json::from_str::<serde_json::Value>(s) {
        Ok(v) => Some(reshape(v)),
        Err(_) => None,
    }
}

/// Relies on the shape of `serde_json::Value` alone: each variant moves,
/// one for one, into the matching `JsonValue` variant; a number moves as
/// its `as_u64` reading beside its `to_string` text.
#[verifier::external_body]
fn reshape(v: serde_json::Value) -> JsonValue {
    match v {
        serde_json::Value::Null => JsonValue::Null,
        serde_json::Value::Bool(b) => JsonValue::Bool(b),
        serde_json::Value::Number(n) => JsonValue::Num(n.as_u64(), n.to_string()),
        serde_json::Value::String(s) => JsonValue::Str(s),
        serde_json::Value::Array(a) => JsonValue::Arr(a.into_iter().map(reshape).collect()),
        serde_json::Value::Object(m) => JsonValue::Obj(
            m.into_iter().map(|(k, x)| (k, reshape(x))).collect(),
        ),
    }
}

} // verus!
