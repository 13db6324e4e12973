//! JSON documents held as plain values, and lookups of object fields.

use vstd::prelude::*;
use crate::numeric::F64Bits;
use crate::text::str_eq;
use serde_json::Value;

verus! {

/// A JSON number as the parser keeps it: a non-negative integer, a
/// negative integer, or a double-precision value by its bit pattern.
#[derive(Debug, Clone, Copy, PartialEq, Eq, Structural)]
pub enum JsonNumber {
    PosInt(u64),
    NegInt(i64),
    Float(F64Bits),
}

/// A JSON value. An object keeps each key once, in the order the parser
/// hands the keys out.
#[derive(Debug)]
pub enum Json {
    Null,
    Bool(bool),
    Number(JsonNumber),
    Str(String),
    Array(Vec<Json>),
    Object(Vec<(String, Json)>),
}

/// `serde_json::Value`, carried from the parser to its conversion unopened.
#[verifier::external_type_specification]
#[verifier::external_body]
pub struct ExJsonValue(serde_json::Value);

/// What `serde_json` parses a text into, or the message of its error; it
/// depends on the text alone.
pub uninterp spec fn json_value(text: Seq<char>) -> Result<Json, Seq<char>>;

/// A parse result with the error message as characters.
pub open spec fn json_result_view(r: Result<Json, String>) -> Result<Json, Seq<char>> {
    match r {
        Ok(j) => Ok(j),
        Err(e) => Err(e@),
    }
}

/// The value `serde_json` holds, the same value as a `Json`: each variant
/// to its like, a number by the first of `as_u64`, `as_i64`, `as_f64` that
/// answers, and the entries of an object in the order the map hands them
/// out. Nothing is claimed of it on its own; `parse_json` states what the
/// parse and this conversion give together.
#[verifier::external_body]
fn json_of_value(v: Value) -> Json {
    match v {
        Value::Null => Json::Null,
        Value::Bool(b) => Json::Bool(b),
        Value::Number(n) => Json::Number(match (n.as_u64(), n.as_i64()) {
            (Some(u), _) => JsonNumber::PosInt(u),
            (None, Some(i)) => JsonNumber::NegInt(i),
            _ => JsonNumber::Float(F64Bits { bits: n.as_f64().unwrap_or_default().to_bits() }),
        }),
        Value::String(s) => Json::Str(s),
        Value::Array(a) => Json::Array(a.into_iter().map(json_of_value).collect()),
        Value::Object(m) => Json::Object(m.into_iter().map(|e| (e.0, json_of_value(e.1))).collect()),
    }
}

/// `serde_json::from_str::<serde_json::Value>`. Trusted to return, for a
/// text, the value it holds or the error message, as the named parse gives
/// them.
#[verifier::external_body]
pub fn parse_json(text: &str) -> (r: Result<Json, String>)
    ensures
        json_result_view(r) == json_value(text@),
{
    match serde_json::from_str::<Value>(text) {
        Ok(v) => Ok(json_of_value(v)),
        Err(e) => Err(e.to_string()),
    }
}

/// The value of the first entry named `key`.
pub open spec fn field(fields: Seq<(String, Json)>, key: Seq<char>) -> Option<Json>
    decreases fields.len(),
{
    if fields.len() == 0 {
        None
    } else if fields[0].0@ == key {
        Some(fields[0].1)
    } else {
        field(fields.drop_first(), key)
    }
}

/// The field `key` of a value, when the value is an object that has it.
pub open spec fn get(j: Option<Json>, key: Seq<char>) -> Option<Json> {
    match j {
        Some(Json::Object(fields)) => field(fields@, key),
        _ => None,
    }
}

/// The field `key` of `j`, when `j` is an object that has it.
pub fn get_field<'a>(j: &'a Json, key: &str) -> (r: Option<&'a Json>)
    ensures
        match r {
            Some(x) => get(Some(*j), key@) == Some(*x),
            None => get(Some(*j), key@) is None,
        },
{
    match j {
        Json::Object(fields) => {
            let mut i: usize = 0;
            assert(fields@.skip(0) =~= fields@);
            while i < fields.len()
                invariant
                    i <= fields.len(),
                    field(fields@, key@) == field(fields@.skip(i as int), key@),
                    get(Some(*j), key@) == field(fields@, key@),
                decreases fields.len() - i,
            {
                assert(fields@.skip(i as int)[0] == fields@[i as int]);
                assert(fields@.skip(i as int).drop_first() =~= fields@.skip(i + 1));
                if str_eq(fields[i].0.as_str(), key) {
                    assert(field(fields@.skip(i as int), key@) == Some(fields@[i as int].1));
                    return Some(&fields[i].1);
                }
                i = i + 1;
            }
            assert(fields@.skip(i as int) =~= Seq::<(String, Json)>::empty());
            None
        },
        _ => None,
    }
}

} // verus!
