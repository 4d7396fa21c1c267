//! A JSON document model that the decoders read, and the call into
//! `serde_json` that produces it from text.

use vstd::prelude::*;
use crate::text::str_equals;

verus! {

/// A JSON number as the decoders see it: the unsigned integer it holds, if it
/// is one that fits in `u64`, and its text as `serde_json` prints it.
#[derive(Debug)]
pub struct JsonNumber {
    pub as_u64: Option<u64>,
    pub text: String,
}

/// A parsed JSON document. Object members keep the order in which
/// `serde_json` hands them out, each key once.
#[derive(Debug)]
pub enum JsonValue {
    Null,
    Bool(bool),
    Number(JsonNumber),
    String(String),
    Array(Vec<JsonValue>),
    Object(Vec<(String, JsonValue)>),
}

/// The value stored under `key` among the members of an object: the first
/// member with that key.
pub open spec fn spec_member(members: Seq<(String, JsonValue)>, key: Seq<char>) -> Option<JsonValue>
    decreases members.len(),
{
    if members.len() == 0 {
        None
    } else if members[0].0@ == key {
        Some(members[0].1)
    } else {
        spec_member(members.drop_first(), key)
    }
}

/// Looks a member of an object up by key.
pub fn member<'a>(members: &'a Vec<(String, JsonValue)>, key: &str) -> (r: Option<&'a JsonValue>)
    ensures
        match spec_member(members@, key@) {
            Some(v) => r matches Some(x) && *x == v,
            None => r is None,
        },
{
    let mut i: usize = 0;
    assert(members@.subrange(0, members@.len() as int) =~= members@);
    while i < members.len()
        invariant
            0 <= i <= members@.len(),
            spec_member(members@, key@) == spec_member(members@.subrange(i as int, members@.len() as int), key@),
        decreases members@.len() - i,
    {
        let ghost rest = members@.subrange(i as int, members@.len() as int);
        assert(rest.drop_first() =~= members@.subrange(i + 1, members@.len() as int));
        if str_equals(members[i].0.as_str(), key) {
            return Some(&members[i].1);
        }
        i = i + 1;
    }
    None
}

/// What `serde_json::from_slice::<serde_json::Value>` makes of the bytes,
/// in this model; `None` where it reports an error.
pub uninterp spec fn spec_json_from_slice(bytes: Seq<u8>) -> Option<JsonValue>;

#[verifier::external_type_specification]
#[verifier::external_body]
pub struct ExSerdeJsonValue(serde_json::Value);

#[verifier::external_type_specification]
#[verifier::external_body]
pub struct ExSerdeJsonError(serde_json::Error);

/// Parses bytes as one JSON document with `serde_json::from_slice` into a
/// `serde_json::Value`, and turns that into the library's model. The contract
/// claims that the result, or the failure, depends on the bytes alone.
#[verifier::external_body]
pub(crate) fn parse_json(bytes: &[u8]) -> (r: Result<JsonValue, serde_json::Error>)
    ensures
        match spec_json_from_slice(bytes@) {
            Some(v) => r matches Ok(x) && x == v,
            None => r is Err,
        },
{
    match serde_json::from_slice::<serde_json::Value>(bytes) {
        Ok(v) => Ok(json_from_serde(v)),
        Err(e) => Err(e),
    }
}

/// Turns a `serde_json::Value` into the library's model, variant by variant:
/// a number keeps `as_u64` and its printed text, arrays and objects are
/// turned element by element in the order `serde_json` yields them.
#[verifier::external_body]
pub(crate) fn json_from_serde(v: serde_json::Value) -> JsonValue {
    match v {
        serde_json::Value::Null => JsonValue::Null,
        serde_json::Value::Bool(b) => JsonValue::Bool(b),
        serde_json::Value::Number(n) => JsonValue::Number(JsonNumber { as_u64: n.as_u64(), text: n.to_string() }),
        serde_json::Value::String(s) => JsonValue::String(s),
        serde_json::Value::Array(a) => JsonValue::Array(a.into_iter().map(json_from_serde).collect()),
        serde_json::Value::Object(m) => JsonValue::Object(m.into_iter().map(|(k, x)| (k, json_from_serde(x))).collect()),
    }
}

/// Parses the bytes in place with `simd_json::serde::from_slice` into a
/// `serde_json::Value` and turns that into the library's model. The crate
/// picks its parser by the processor at run time and rewrites the slice while
/// it parses, so the contract claims only what holds on every machine: the
/// buffer keeps its length. Which document comes back, and when, is left
/// unsaid.
#[verifier::external_body]
pub(crate) fn simd_parse_json(bytes: &mut [u8]) -> (r: Option<JsonValue>)
    ensures
        final(bytes)@.len() == old(bytes)@.len(),
{
    match simd_json::serde::from_slice::<serde_json::Value>(bytes) {
        Ok(v) => Some(json_from_serde(v)),
        Err(_) => None,
    }
}

} // verus!
