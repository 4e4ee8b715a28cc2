//! JSON text: how messages are read from the control socket and written to it.

use crate::json::{Json, JsonView};
use serde_json::Value;
use vstd::prelude::*;

verus! {

/// The JSON value of the `serde_json` crate, which is opaque here.
#[verifier::external_type_specification]
#[verifier::external_body]
pub struct ExValue(serde_json::Value);

/// What a `serde_json::Value` holds: its truth value, number, text, items or entries.
pub uninterp spec fn value_contents(value: Value) -> JsonView;

/// What `serde_json::from_str` reads from a text, or nothing where the text is not JSON.
pub uninterp spec fn json_parsed(text: Seq<char>) -> Option<JsonView>;

/// The compact text that a `serde_json::Value` with these contents prints as.
pub uninterp spec fn json_text(contents: JsonView) -> Seq<char>;

impl JsonView {
    /// Whether every number in the value is an integer from zero to `u64::MAX`, or one that
    /// reading its text gives back with that same text.
    pub open spec fn is_writable(self) -> bool
        decreases self,
    {
        match self {
            JsonView::OtherNumber(text) => json_parsed(text) == Some(self),
            JsonView::Integer(n) => n <= u64::MAX,
            JsonView::List(items) => forall|i: int|
                0 <= i < items.len() ==> (#[trigger] items[i]).is_writable(),
            JsonView::Object(entries) => forall|key: Seq<char>|
                entries.contains_key(key) ==> (#[trigger] entries[key]).is_writable(),
            _ => true,
        }
    }
}

/// Calls `serde_json::from_str` for a `serde_json::Value`. It succeeds exactly on the texts that
/// `json_parsed` has a value for, and the value read holds what `json_parsed` says.
#[verifier::external_body]
fn value_from_text(text: &str) -> (read: Option<Value>)
    ensures
        match read {
            Some(value) => json_parsed(text@) == Some(value_contents(value)),
            None => json_parsed(text@) is None,
        },
{
    serde_json::from_str(text).ok()
}

/// Turns a `serde_json::Value` into a `Json`, variant by variant. The contents stay the same: an
/// integer that `Number::as_u64` gives is an `Integer`, any other number keeps its text.
#[verifier::external_body]
fn json_from_value(value: Value) -> (json: Json)
    ensures
        json@ == value_contents(value),
{
    match value {
        Value::Null => Json::Null,
        Value::Bool(b) => Json::Bool(b),
        Value::Number(n) => match n.as_u64() {
            Some(integer) => Json::Integer(integer),
            None => Json::OtherNumber(n.to_string()),
        },
        Value::String(text) => Json::Text(text),
        Value::Array(items) => Json::List(items.into_iter().map(json_from_value).collect()),
        Value::Object(map) => Json::Object(
            map.into_iter().map(|(key, item)| (key, json_from_value(item))).collect()),
    }
}

/// Turns a `Json` into a `serde_json::Value`, variant by variant; a number that is held as text is
/// read with `serde_json::from_str`. The contents stay the same where every such text is read back
/// as itself; nothing is said of a value that holds another one, since reading a fraction may round
/// it.
#[verifier::external_body]
fn value_from_json(json: &Json) -> (value: Value)
    ensures
        json@.is_writable() ==> value_contents(value) == json@,
{
    match json {
        Json::Null => Value::Null,
        Json::Bool(b) => Value::Bool(*b),
        Json::Integer(n) => Value::from(*n),
        Json::OtherNumber(text) => serde_json::from_str(text).unwrap_or(Value::Null),
        Json::Text(text) => Value::String(text.clone()),
        Json::List(items) => Value::Array(items.iter().map(value_from_json).collect()),
        Json::Object(entries) => {
            let mut map = serde_json::Map::new();
            entries.iter().for_each(|(key, item)| drop(map.insert(key.clone(), value_from_json(item))));
            Value::Object(map)
        },
    }
}

/// Prints a `serde_json::Value` with its `Display`, in the compact form: the text is a function of
/// the contents alone, since an object prints its entries in the order of their keys.
#[verifier::external_body]
fn value_text(value: &Value) -> (text: String)
    ensures
        text@ == json_text(value_contents(*value)),
{
    value.to_string()
}

/// Reads a JSON text.
pub fn decode(text: &str) -> (read: Option<Json>)
    ensures
        match read {
            Some(json) => json_parsed(text@) == Some(json@),
            None => json_parsed(text@) is None,
        },
{
    match value_from_text(text) {
        Some(value) => Some(json_from_value(value)),
        None => None,
    }
}

/// Writes a JSON text, exactly where the value can be written exactly.
pub fn encode(json: &Json) -> (text: String)
    ensures
        json@.is_writable() ==> text@ == json_text(json@),
{
    value_text(&value_from_json(json))
}

} // verus!
