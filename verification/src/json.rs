//! JSON documents as the wire format sees them, and the `serde_json` calls
//! that build, print and read them.
//!
//! A `serde_json::Value` is opaque to the verifier. What it holds is named by
//! [`json_of`], and every function below that touches `serde_json` is trusted:
//! its contract is believed, not proved.

use vstd::prelude::*;

verus! {

/// A JSON document as a mathematical value.
pub enum Json {
    Null,
    Bool(bool),
    /// A whole number.
    Number(int),
    /// A number with a fraction or an exponent, by its digits.
    Decimal(Seq<char>),
    Text(Seq<char>),
    List(Seq<Json>),
    Object(Map<Seq<char>, Json>),
}

impl Json {
    /// The members of an object; no members for any other document.
    pub open spec fn members(self) -> Map<Seq<char>, Json> {
        match self {
            Json::Object(m) => m,
            _ => Map::empty(),
        }
    }

    /// The member under `key`, where the document is an object that has one.
    pub open spec fn member(self, key: Seq<char>) -> Option<Json> {
        if self is Object && self.members().contains_key(key) {
            Some(self.members()[key])
        } else {
            None
        }
    }

    /// The text of a member that is a string.
    pub open spec fn text_member(self, key: Seq<char>) -> Option<Seq<char>> {
        match self.member(key) {
            Some(Json::Text(t)) => Some(t),
            _ => None,
        }
    }
}

#[verifier::external_type_specification]
#[verifier::external_body]
pub struct ExValue(serde_json::Value);

/// The document that a `serde_json::Value` holds.
pub uninterp spec fn json_of(v: serde_json::Value) -> Json;

/// The compact text that `serde_json` prints for a document. The crate is
/// built with its sorted map, so the members of an object come in the order
/// of their keys and the text depends on the document alone.
pub uninterp spec fn json_text(doc: Json) -> Seq<char>;

/// The document that `serde_json` reads from a text, if it reads one.
pub uninterp spec fn json_parse(text: Seq<char>) -> Option<Json>;

/// `Value::from(&str)`: a value that holds the given text as a JSON string.
#[verifier::external_body]
pub(crate) fn text_value(s: &str) -> (v: serde_json::Value)
    ensures
        json_of(v) == Json::Text(s@),
{
    serde_json::Value::from(s)
}

/// `Value::from(u64)`: a value that holds the given whole number.
#[verifier::external_body]
pub(crate) fn number_value(n: u64) -> (v: serde_json::Value)
    ensures
        json_of(v) == Json::Number(n as int),
{
    serde_json::Value::from(n)
}

/// `Value::Null`: the value that holds JSON `null`.
#[verifier::external_body]
pub(crate) fn null_value() -> (v: serde_json::Value)
    ensures
        json_of(v) == Json::Null,
{
    serde_json::Value::Null
}

/// `Value::Array`: a value that holds the given values as a JSON array, in
/// their order.
#[verifier::external_body]
pub(crate) fn list_value(items: Vec<serde_json::Value>) -> (v: serde_json::Value)
    ensures
        json_of(v) == Json::List(items@.map_values(|x: serde_json::Value| json_of(x))),
{
    serde_json::Value::Array(items)
}

/// `Value::Object` of `Map::new()`: a value that holds the object without
/// members.
#[verifier::external_body]
pub(crate) fn empty_object() -> (v: serde_json::Value)
    ensures
        json_of(v) == Json::Object(Map::empty()),
{
    serde_json::Value::Object(serde_json::Map::new())
}

/// `IndexMut<&str>` of `Value`, assigned to: on an object, the member under
/// `key` becomes `v`, added if the object had none, and the other members
/// stay. (On a value that is neither an object nor `null` the call panics,
/// hence the precondition.)
#[verifier::external_body]
pub(crate) fn set_member(doc: &mut serde_json::Value, key: &str, v: serde_json::Value)
    requires
        json_of(*old(doc)) is Object,
    ensures
        json_of(*final(doc)) == Json::Object(json_of(*old(doc)).members().insert(key@, json_of(v))),
{
    doc[key] = v;
}

/// `Display` of `Value`, through `to_string`: the compact text of the
/// document that the value holds.
#[verifier::external_body]
pub(crate) fn value_text(v: &serde_json::Value) -> (text: String)
    ensures
        text@ == json_text(json_of(*v)),
{
    v.to_string()
}

/// `serde_json::from_str` at `Value`: the value read from `text`, or `None`
/// where the text is no JSON document. The outcome depends on the text alone.
#[verifier::external_body]
pub(crate) fn parse_value(text: &str) -> (r: Option<serde_json::Value>)
    ensures
        match r {
            Some(v) => json_parse(text@) == Some(json_of(v)),
            None => json_parse(text@) is None,
        },
{
    serde_json::from_str::<serde_json::Value>(text).ok()
}

/// `Value::get` with a string key: the member under `key` of an object that
/// has one; `None` for an object without it and for every other value.
#[verifier::external_body]
pub(crate) fn value_member<'a>(v: &'a serde_json::Value, key: &str) -> (r: Option<
    &'a serde_json::Value,
>)
    ensures
        match r {
            Some(m) => json_of(*v).member(key@) == Some(json_of(*m)),
            None => json_of(*v).member(key@) is None,
        },
{
    v.get(key)
}

/// `Value::as_str`: the text of a JSON string; `None` for every other value.
#[verifier::external_body]
pub(crate) fn value_as_text<'a>(v: &'a serde_json::Value) -> (r: Option<&'a str>)
    ensures
        match r {
            Some(s) => json_of(*v) == Json::Text(s@),
            None => !(json_of(*v) is Text),
        },
{
    v.as_str()
}

/// The string member `key` of the JSON object that `text` holds: `None` where
/// the text is no JSON document, no object, has no such member, or has one
/// that is no string.
pub open spec fn text_member_of(text: Seq<char>, key: Seq<char>) -> Option<Seq<char>> {
    match json_parse(text) {
        Some(doc) => doc.text_member(key),
        None => None,
    }
}

/// Reads `text` as JSON and returns its string member `key`.
pub fn read_text_member(text: &str, key: &str) -> (r: Option<String>)
    ensures
        match r {
            Some(s) => text_member_of(text@, key@) == Some(s@),
            None => text_member_of(text@, key@) is None,
        },
{
    match parse_value(text) {
        None => None,
        Some(doc) => match value_member(&doc, key) {
            None => None,
            Some(m) => match value_as_text(m) {
                None => None,
                Some(s) => Some(s.to_owned()),
            },
        },
    }
}

} // verus!
