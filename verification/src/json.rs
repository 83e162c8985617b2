//! A JSON document as the library reads it, and member lookup.

use crate::config::chars_equal;
use crate::text::chars_of;
use vstd::prelude::*;
use vstd::utf8::{decode_utf8, valid_utf8};

verus! {

/// A JSON value. Numbers are kept as their text.
#[derive(Debug)]
pub enum Json {
    Null,
    Bool(bool),
    Number(String),
    Str(String),
    Array(Vec<Json>),
    Object(Vec<(String, Json)>),
}

/// The value of the first member of `ms` at or after `i` whose name is
/// `key`.
pub open spec fn find_member(ms: Seq<(String, Json)>, key: Seq<char>, i: int) -> Option<Json>
    decreases ms.len() - i,
{
    if i < 0 || i >= ms.len() {
        None
    } else if ms[i].0@ == key {
        Some(ms[i].1)
    } else {
        find_member(ms, key, i + 1)
    }
}

/// The member `key` of an object; nothing for other values.
pub open spec fn json_get(v: Json, key: Seq<char>) -> Option<Json> {
    match v {
        Json::Object(ms) => find_member(ms@, key, 0),
        _ => None,
    }
}

/// The elements of an array; nothing for other values.
pub open spec fn json_array(v: Option<Json>) -> Option<Seq<Json>> {
    match v {
        Some(Json::Array(items)) => Some(items@),
        _ => None,
    }
}

/// A boolean value; nothing for other values.
pub open spec fn json_bool(v: Option<Json>) -> Option<bool> {
    match v {
        Some(Json::Bool(b)) => Some(b),
        _ => None,
    }
}

/// The names of the members, as characters.
pub open spec fn member_names(ms: Seq<(String, Json)>) -> Seq<Seq<char>> {
    ms.map_values(|m: (String, Json)| m.0@)
}

/// The values of the members.
pub open spec fn member_values(ms: Seq<(String, Json)>) -> Seq<Json> {
    ms.map_values(|m: (String, Json)| m.1)
}

/// Looks up the member `key` of an object.
pub fn get<'a>(v: &'a Json, key: &str) -> (r: Option<&'a Json>)
    ensures
        json_get(*v, key@) == match r {
            Some(x) => Some(*x),
            None => None::<Json>,
        },
{
    match v {
        Json::Object(ms) => {
            let k = chars_of(key);
            let mut i: usize = 0;
            while i < ms.len()
                invariant
                    k@ == key@,
                    json_get(*v, key@) == find_member(ms@, key@, 0),
                    i <= ms@.len(),
                    find_member(ms@, key@, 0) == find_member(ms@, key@, i as int),
                decreases ms@.len() - i,
            {
                let name = chars_of(ms[i].0.as_str());
                if chars_equal(name.as_slice(), key) {
                    assert(ms@[i as int].0@ == key@);
                    assert(find_member(ms@, key@, i as int) == Some(ms@[i as int].1));
                    return Some(&ms[i].1);
                }
                i = i + 1;
            }
            None
        },
        _ => None,
    }
}

/// Looks up the member `key` of an object and reads it as an array.
pub fn get_array<'a>(v: &'a Json, key: &str) -> (r: Option<&'a Vec<Json>>)
    ensures
        json_array(json_get(*v, key@)) == match r {
            Some(items) => Some(items@),
            None => None::<Seq<Json>>,
        },
{
    match get(v, key) {
        Some(Json::Array(items)) => Some(items),
        _ => None,
    }
}

/// Looks up the member `key` of an object and reads it as a boolean.
pub fn get_bool(v: &Json, key: &str) -> (r: Option<bool>)
    ensures
        r == json_bool(json_get(*v, key@)),
{
    match get(v, key) {
        Some(Json::Bool(b)) => Some(*b),
        _ => None,
    }
}

#[verifier::external_type_specification]
#[verifier::external_body]
pub struct ExJsonValue(serde_json::Value);

/// The document that `serde_json` reads from `bytes`, or nothing when they
/// are not one JSON document.
pub uninterp spec fn json_parse(bytes: Seq<u8>) -> Option<Json>;

/// The text that `String::from_utf8_lossy` makes of `bytes`.
pub uninterp spec fn utf8_lossy(bytes: Seq<u8>) -> Seq<char>;

/// The compact JSON text that `serde_json::to_string` writes for `doc`.
pub uninterp spec fn json_compact(doc: Json) -> Seq<char>;

/// The indented JSON text that `serde_json::to_string_pretty` writes for
/// `doc`.
pub uninterp spec fn json_pretty(doc: Json) -> Seq<char>;

/// The same document as the library's JSON value, node for node; a number
/// keeps its text.
///
/// Trusted: a one-for-one conversion of a `serde_json::Value`; it makes no
/// other call and decides nothing. Used only inside [`parse_json`].
#[verifier::external_body]
fn json_of_value(value: &serde_json::Value) -> Json {
    match value {
        serde_json::Value::Null => Json::Null,
        serde_json::Value::Bool(b) => Json::Bool(*b),
        serde_json::Value::Number(n) => Json::Number(n.to_string()),
        serde_json::Value::String(s) => Json::Str(s.clone()),
        serde_json::Value::Array(items) => Json::Array(items.iter().map(json_of_value).collect()),
        serde_json::Value::Object(members) => Json::Object(
            members.iter().map(|(k, v)| (k.clone(), json_of_value(v))).collect(),
        ),
    }
}

/// The same document as a `serde_json::Value`, node for node; a number's
/// text is read back as a JSON number.
///
/// Trusted: a one-for-one conversion into a `serde_json::Value`; it decides
/// nothing. Used only inside [`compact_json`] and [`pretty_json`].
#[verifier::external_body]
fn value_of_json(doc: &Json) -> serde_json::Value {
    match doc {
        Json::Null => serde_json::Value::Null,
        Json::Bool(b) => serde_json::Value::Bool(*b),
        Json::Number(t) => match t.parse::<serde_json::Number>() {
            Ok(n) => serde_json::Value::Number(n),
            Err(_) => serde_json::Value::String(t.clone()),
        },
        Json::Str(s) => serde_json::Value::String(s.clone()),
        Json::Array(items) => serde_json::Value::Array(items.iter().map(value_of_json).collect()),
        Json::Object(ms) => serde_json::Value::Object(
            ms.iter().map(|(k, v)| (k.clone(), value_of_json(v))).collect(),
        ),
    }
}

/// Reads `bytes` as one JSON document.
///
/// Trusted: calls `serde_json::from_slice` into a `serde_json::Value` and
/// converts the result; gives nothing when `serde_json` reports an error.
/// What it reads is named by [`json_parse`] and not stated further.
#[verifier::external_body]
fn parse_json(bytes: &[u8]) -> (r: Option<Json>)
    ensures
        r == json_parse(bytes@),
{
    match serde_json::from_slice::<serde_json::Value>(bytes) {
        Ok(v) => Some(json_of_value(&v)),
        Err(_) => None,
    }
}

/// The text of `bytes`, with every invalid UTF-8 sequence replaced.
///
/// Trusted: calls `String::from_utf8_lossy`, which gives the decoded text
/// unchanged when `bytes` are valid UTF-8. How invalid sequences are replaced
/// is named by [`utf8_lossy`] and not stated further.
#[verifier::external_body]
fn lossy_text(bytes: &[u8]) -> (s: String)
    ensures
        s@ == utf8_lossy(bytes@),
        valid_utf8(bytes@) ==> s@ == decode_utf8(bytes@),
{
    String::from_utf8_lossy(bytes).into_owned()
}

/// The compact JSON text of `doc`.
///
/// Trusted: calls `serde_json::to_string` on the converted document, and
/// gives `unknown error` if it fails. The text is named by [`json_compact`].
#[verifier::external_body]
pub(crate) fn compact_json(doc: &Json) -> (s: String)
    ensures
        s@ == json_compact(*doc),
{
    match serde_json::to_string(&value_of_json(doc)) {
        Ok(t) => t,
        Err(_) => "unknown error".to_string(),
    }
}

/// The indented JSON text of `doc`.
///
/// Trusted: calls `serde_json::to_string_pretty` on the converted document,
/// and falls back to the compact text if it fails. The text is named by
/// [`json_pretty`].
#[verifier::external_body]
pub(crate) fn pretty_json(doc: &Json) -> (s: String)
    ensures
        s@ == json_pretty(*doc),
{
    let value = value_of_json(doc);
    match serde_json::to_string_pretty(&value) {
        Ok(t) => t,
        Err(_) => value.to_string(),
    }
}

/// Whether `v` is what an answer's body `bytes` stands for: the JSON
/// document they hold, or else their text as a JSON string.
pub open spec fn is_body_value(v: Json, bytes: Seq<u8>) -> bool {
    match json_parse(bytes) {
        Some(doc) => v == doc,
        None => v matches Json::Str(s) && s@ == utf8_lossy(bytes),
    }
}

/// The value an answer's body stands for: the JSON document it holds, or
/// else its text.
pub fn body_value(bytes: &[u8]) -> (r: Json)
    ensures
        is_body_value(r, bytes@),
        json_parse(bytes@) is None && valid_utf8(bytes@) ==> (r matches Json::Str(s) && s@
            == decode_utf8(bytes@)),
{
    match parse_json(bytes) {
        Some(doc) => doc,
        None => Json::Str(lossy_text(bytes)),
    }
}

} // verus!
