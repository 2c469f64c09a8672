//! A mathematical model of JSON documents, and the trusted bridge to
//! serde_json that the response interpreters are verified against.
//!
//! `JsonNode` is the model: every `serde_json::Value` has one, given by the
//! uninterpreted function `json_node`, and parsing a text has the one result
//! `json_of_text`. The executable accessors below are trusted wrappers around
//! serde_json; each states over the model exactly what the crate's source
//! shows the call does.

use vstd::prelude::*;

verus! {

/// The model of one JSON value.
///
/// A number is modelled by the decimal text serde_json renders for it, along
/// with the integer it holds when it is stored as an integer in `i64` range.
/// An object is modelled as a map from key text to the value's model.
pub enum JsonNode {
    Null,
    Bool(bool),
    Num { int_val: Option<i64>, text: Seq<char> },
    Str(Seq<char>),
    Arr(Seq<JsonNode>),
    Obj(Map<Seq<char>, JsonNode>),
}

#[verifier::external_type_specification]
#[verifier::external_body]
pub struct ExValue(serde_json::Value);

/// The model of a parsed JSON value.
pub uninterp spec fn json_node(v: serde_json::Value) -> JsonNode;

/// What parsing a text as JSON yields: `None` when the text is not a valid
/// JSON document, otherwise the model of the parsed value.
pub uninterp spec fn json_of_text(s: Seq<char>) -> Option<JsonNode>;

/// The models of a sequence of parsed values.
pub open spec fn nodes_of(vs: Seq<serde_json::Value>) -> Seq<JsonNode> {
    vs.map_values(|v: serde_json::Value| json_node(v))
}

/// Relies on serde_json::from_str::<Value>: parsing is a pure function of the
/// text; `json_of_text` names which texts parse, and to what.
#[verifier::external_body]
pub fn parse_json(s: &str) -> (r: Result<serde_json::Value, String>)
    ensures
        match r {
            Ok(v) => json_of_text(s@) == Some(json_node(v)),
            Err(_) => json_of_text(s@) is None,
        },
{
    match serde_json::from_str::<serde_json::Value>(s) {
        Ok(v) => Ok(v),
        Err(e) => Err(e.to_string()),
    }
}

/// Relies on serde_json::Value::get with a string index: a key lookup on an
/// object, `None` on a missing key or on any other kind of value.
#[verifier::external_body]
pub fn json_get<'a>(v: &'a serde_json::Value, key: &str) -> (r: Option<&'a serde_json::Value>)
    ensures
        match json_node(*v) {
            JsonNode::Obj(m) => {
                if m.dom().contains(key@) {
                    r matches Some(f) && json_node(*f) == m[key@]
                } else {
                    r is None
                }
            },
            _ => r is None,
        },
{
    v.get(key)
}

/// Relies on serde_json::Value::as_bool: `Some` exactly on a boolean.
#[verifier::external_body]
pub fn json_as_bool(v: &serde_json::Value) -> (r: Option<bool>)
    ensures
        match json_node(*v) {
            JsonNode::Bool(b) => r == Some(b),
            _ => r is None,
        },
{
    v.as_bool()
}

/// Relies on serde_json::Value::as_str: `Some` exactly on a string.
#[verifier::external_body]
pub fn json_as_str<'a>(v: &'a serde_json::Value) -> (r: Option<&'a str>)
    ensures
        match json_node(*v) {
            JsonNode::Str(s) => r matches Some(t) && t@ == s,
            _ => r is None,
        },
{
    v.as_str()
}

/// Relies on serde_json::Value::as_i64: `Some` exactly when the number is
/// stored as an integer that fits in an `i64`.
#[verifier::external_body]
pub fn json_as_i64(v: &serde_json::Value) -> (r: Option<i64>)
    ensures
        match json_node(*v) {
            JsonNode::Num { int_val, .. } => r == int_val,
            _ => r is None,
        },
{
    v.as_i64()
}

/// Relies on serde_json::Number's Display implementation: a number renders as
/// decimal text that depends on the stored number alone.
#[verifier::external_body]
pub fn json_num_text(v: &serde_json::Value) -> (r: Option<String>)
    ensures
        match json_node(*v) {
            JsonNode::Num { text, .. } => r matches Some(t) && t@ == text,
            _ => r is None,
        },
{
    match v {
        serde_json::Value::Number(n) => Some(n.to_string()),
        _ => None,
    }
}

/// Relies on serde_json::Value::is_null: true exactly on JSON null.
#[verifier::external_body]
pub fn json_is_null(v: &serde_json::Value) -> (r: bool)
    ensures
        r == (json_node(*v) is Null),
{
    v.is_null()
}

/// Relies on serde_json::Value::as_array: `Some` exactly on an array,
/// returning its elements in order.
#[verifier::external_body]
pub fn json_as_array<'a>(v: &'a serde_json::Value) -> (r: Option<&'a Vec<serde_json::Value>>)
    ensures
        match json_node(*v) {
            JsonNode::Arr(elems) => r matches Some(a) && nodes_of(a@) == elems,
            _ => r is None,
        },
{
    v.as_array()
}

} // verus!
