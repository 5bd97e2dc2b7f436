//! JSON payloads as the store sees them.
//!
//! The JSON values themselves are `serde_json`'s, and so is the parser. The
//! store never looks inside a value: it only needs to know which kind of
//! value it was handed, so [`Payload`] spells out the six kinds and carries
//! the contents along untouched.

use vstd::prelude::*;

verus! {

/// `serde_json::Value`, any JSON value. Opaque here: values of this type are
/// only moved around, never inspected.
#[verifier::external_type_specification]
#[verifier::external_body]
pub struct ExValue(serde_json::Value);

/// `serde_json::Number`, a JSON number. Opaque here.
#[verifier::external_type_specification]
#[verifier::external_body]
pub struct ExNumber(serde_json::Number);

/// `serde_json::Map`, the members of a JSON object. Opaque here.
#[verifier::external_type_specification]
#[verifier::external_body]
#[verifier::reject_recursive_types(K)]
#[verifier::reject_recursive_types(V)]
pub struct ExObject<K, V>(serde_json::Map<K, V>);

/// A stored document: the members of one JSON object.
pub type Record = serde_json::Map<String, serde_json::Value>;

/// A JSON value, tagged with its kind.
///
/// The variants mirror those of `serde_json::Value` one for one.
#[derive(Debug, PartialEq)]
pub enum Payload {
    Null,
    Bool(bool),
    Number(serde_json::Number),
    Text(String),
    Array(Vec<serde_json::Value>),
    Object(Record),
}

/// `Clone::clone` of `serde_json::Map<String, Value>`, which clones the
/// underlying map entry by entry. The contract claims that the copy is the
/// same value as the record it was made from.
pub assume_specification[ <serde_json::Map<String, serde_json::Value> as Clone>::clone ](
    record: &serde_json::Map<String, serde_json::Value>,
) -> (copy: serde_json::Map<String, serde_json::Value>)
    ensures
        copy == *record,
;

/// The JSON value that `body` spells, if it spells one: what
/// `serde_json::from_slice` makes of these bytes.
pub uninterp spec fn parsed(body: Seq<u8>) -> Option<Payload>;

/// Parses `body` as one JSON value with `serde_json::from_slice` and tags
/// the value with its kind. The parser reads nothing but these bytes, so
/// the contract names its result after them: the value on success, nothing
/// where the parser reports an error.
#[verifier::external_body]
pub(crate) fn parse(body: &[u8]) -> (payload: Option<Payload>)
    ensures
        payload == parsed(body@),
{
    match serde_json::from_slice::<serde_json::Value>(body) {
        Ok(serde_json::Value::Null) => Some(Payload::Null),
        Ok(serde_json::Value::Bool(flag)) => Some(Payload::Bool(flag)),
        Ok(serde_json::Value::Number(number)) => Some(Payload::Number(number)),
        Ok(serde_json::Value::String(text)) => Some(Payload::Text(text)),
        Ok(serde_json::Value::Array(items)) => Some(Payload::Array(items)),
        Ok(serde_json::Value::Object(members)) => Some(Payload::Object(members)),
        Err(_) => None,
    }
}

} // verus!
