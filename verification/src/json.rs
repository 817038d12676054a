//! JSON documents.
//!
//! Parsing and printing are done by `serde_json`; a document is carried as a
//! `serde_json::Value`. What a `Value` holds is described by the mathematical
//! tree [`Json`], and every function of this module states its result over
//! that tree. The functions marked `external_body` are believed, not proved:
//! each names the `serde_json` function it calls and what it claims of it.

use serde_json::Value;
use vstd::prelude::*;

verus! {

/// The tree that a JSON document denotes.
pub enum Json {
    Null,
    Bool(bool),
    /// A non-negative integer.
    Unsigned(u64),
    /// A negative integer.
    Negative(i64),
    /// A number with a fraction or an exponent, identified by its bit pattern.
    Fraction(u64),
    Text(Seq<char>),
    Array(Seq<Json>),
    Object(Map<Seq<char>, Json>),
}

impl Json {
    /// The member `key` of an object; `None` for a missing member and for
    /// anything that is not an object.
    pub open spec fn member(self, key: Seq<char>) -> Option<Json> {
        match self {
            Json::Object(members) => if members.contains_key(key) {
                Some(members[key])
            } else {
                None
            },
            _ => None,
        }
    }

    /// The text of a string member.
    pub open spec fn text_member(self, key: Seq<char>) -> Option<Seq<char>> {
        match self.member(key) {
            Some(Json::Text(s)) => Some(s),
            _ => None,
        }
    }

    /// The value of a non-negative integer member.
    pub open spec fn unsigned_member(self, key: Seq<char>) -> Option<u64> {
        match self.member(key) {
            Some(Json::Unsigned(n)) => Some(n),
            _ => None,
        }
    }

    /// The value of a boolean member.
    pub open spec fn bool_member(self, key: Seq<char>) -> Option<bool> {
        match self.member(key) {
            Some(Json::Bool(b)) => Some(b),
            _ => None,
        }
    }

    /// The items of an array member.
    pub open spec fn array_member(self, key: Seq<char>) -> Option<Seq<Json>> {
        match self.member(key) {
            Some(Json::Array(items)) => Some(items),
            _ => None,
        }
    }
}

#[verifier::external_type_specification]
#[verifier::external_body]
pub struct ExValue(serde_json::Value);

#[verifier::external_type_specification]
#[verifier::external_body]
pub struct ExJsonError(serde_json::Error);

/// The tree held by a `serde_json::Value`.
pub uninterp spec fn json_model(v: Value) -> Json;

/// The document that `serde_json::from_str` reads from a text, `None` where
/// it reports an error.
pub uninterp spec fn json_parse(text: Seq<char>) -> Option<Json>;

/// The compact text that `serde_json::to_string` prints for a document,
/// `None` where it reports an error.
pub uninterp spec fn json_text(doc: Json) -> Option<Seq<char>>;

/// The trees of a sequence of values, item by item.
pub open spec fn json_models(items: Seq<Value>) -> Seq<Json> {
    Seq::new(items.len(), |i: int| json_model(items[i]))
}

/// Calls `serde_json::from_str::<Value>`. The result is a function of the
/// text alone: `Ok` with the document that the text denotes, or the parser's
/// error.
#[verifier::external_body]
pub(crate) fn parse_json(text: &str) -> (r: Result<Value, serde_json::Error>)
    ensures
        match r {
            Ok(v) => json_parse(text@) == Some(json_model(v)),
            Err(_) => json_parse(text@) is None,
        },
{
    serde_json::from_str::<Value>(text)
}

/// Calls `serde_json::to_string` on a `Value`. The result is a function of
/// the document alone.
#[verifier::external_body]
pub(crate) fn render_json(v: &Value) -> (r: Result<String, serde_json::Error>)
    ensures
        match r {
            Ok(s) => json_text(json_model(*v)) == Some(s@),
            Err(_) => json_text(json_model(*v)) is None,
        },
{
    serde_json::to_string(v)
}

/// Calls `Value::get` with a string key: the member of that name if the value
/// is an object that has one, `None` otherwise.
#[verifier::external_body]
pub(crate) fn json_get<'a>(v: &'a Value, key: &str) -> (r: Option<&'a Value>)
    ensures
        match r {
            Some(m) => json_model(*v).member(key@) == Some(json_model(*m)),
            None => json_model(*v).member(key@) is None,
        },
{
    v.get(key)
}

/// Calls `Value::as_str`: the text if the value is a string.
#[verifier::external_body]
pub(crate) fn json_as_str<'a>(v: &'a Value) -> (r: Option<&'a str>)
    ensures
        match r {
            Some(s) => json_model(*v) == Json::Text(s@),
            None => !(json_model(*v) is Text),
        },
{
    v.as_str()
}

/// Calls `Value::as_u64`: the number if the value is a non-negative integer.
#[verifier::external_body]
pub(crate) fn json_as_u64(v: &Value) -> (r: Option<u64>)
    ensures
        match r {
            Some(n) => json_model(*v) == Json::Unsigned(n),
            None => !(json_model(*v) is Unsigned),
        },
{
    v.as_u64()
}

/// Calls `Value::as_bool`: the truth value if the value is a boolean.
#[verifier::external_body]
pub(crate) fn json_as_bool(v: &Value) -> (r: Option<bool>)
    ensures
        match r {
            Some(b) => json_model(*v) == Json::Bool(b),
            None => !(json_model(*v) is Bool),
        },
{
    v.as_bool()
}

/// Calls `Value::as_array`: the items, in order, if the value is an array.
#[verifier::external_body]
pub(crate) fn json_as_array<'a>(v: &'a Value) -> (r: Option<&'a Vec<Value>>)
    ensures
        match r {
            Some(items) => json_model(*v) == Json::Array(json_models(items@)),
            None => !(json_model(*v) is Array),
        },
{
    v.as_array()
}

/// Calls `Value::from` on a text: the string of that text.
#[verifier::external_body]
pub(crate) fn json_string(text: &str) -> (r: Value)
    ensures
        json_model(r) == Json::Text(text@),
{
    Value::from(text)
}

/// Calls `Value::from_iter` on a single pair: the object whose one member
/// has that name and that value.
#[verifier::external_body]
pub(crate) fn json_object(key: &str, member: Value) -> (r: Value)
    ensures
        json_model(r) == Json::Object(Map::empty().insert(key@, json_model(member))),
{
    Value::from_iter([(key, member)])
}

} // verus!
