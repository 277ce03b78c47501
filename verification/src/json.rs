//! JSON values of the `serde_json` crate, built from plain values and written
//! out as text.

use serde_json::Value;
use vstd::prelude::*;

verus! {

/// A JSON value of the `serde_json` crate. Nothing inside it is visible to
/// the verifier.
#[verifier::external_type_specification]
#[verifier::external_body]
pub struct ExValue(Value);

/// The reason for which `serde_json` gives up writing a value.
#[verifier::external_type_specification]
#[verifier::external_body]
pub struct ExError(serde_json::Error);

/// The JSON string that holds a text.
pub uninterp spec fn json_string(text: Seq<char>) -> Value;

/// The JSON number of a signed 32-bit integer.
pub uninterp spec fn json_number(n: int) -> Value;

/// The JSON array of the given items.
pub uninterp spec fn json_array(items: Seq<Value>) -> Value;

/// The JSON object that `serde_json` collects from pairs of a key and a
/// value, taken in their order.
pub uninterp spec fn json_object(fields: Seq<(Seq<char>, Value)>) -> Value;

/// The text that `serde_json` writes for a value in its indented layout, if
/// it writes one.
pub uninterp spec fn pretty_text(value: Value) -> Option<Seq<char>>;

/// The key and the value of one field, the key as mathematical value.
pub open spec fn field_view(field: (String, Value)) -> (Seq<char>, Value) {
    (field.0@, field.1)
}

/// Calls `Value::from` on a string slice, which gives the JSON string
/// holding a copy of it.
#[verifier::external_body]
pub(crate) fn string_value(text: &str) -> (value: Value)
    ensures
        value == json_string(text@),
{
    Value::from(text)
}

/// Calls `Value::from` on an `i32`, which gives the JSON number of it.
#[verifier::external_body]
pub(crate) fn number_value(n: i32) -> (value: Value)
    ensures
        value == json_number(n as int),
{
    Value::from(n)
}

/// Calls `Value::from` on a vector of values, which gives the JSON array of
/// them.
#[verifier::external_body]
pub(crate) fn array_value(items: Vec<Value>) -> (value: Value)
    ensures
        value == json_array(items@),
{
    Value::from(items)
}

/// Calls `Value::from_iter` on pairs of a key and a value, which collects
/// them into a JSON object.
#[verifier::external_body]
pub(crate) fn object_value(fields: Vec<(String, Value)>) -> (value: Value)
    ensures
        value == json_object(fields@.map_values(|field: (String, Value)| field_view(field))),
{
    Value::from_iter(fields)
}

/// Calls `serde_json::to_string_pretty` on a value. Whether a text comes out,
/// and which, depends on the value alone.
#[verifier::external_body]
pub(crate) fn write_pretty(value: &Value) -> (written: Result<String, serde_json::Error>)
    ensures
        match written {
            Ok(text) => pretty_text(*value) == Some(text@),
            Err(_) => pretty_text(*value) is None,
        },
{
    serde_json::to_string_pretty(value)
}

} // verus!
