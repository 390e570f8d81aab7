//! The strings of a JSON value, and the few calls into `serde_json` by which
//! trust fragments are read and written.

use serde_json::Value;
use vstd::prelude::*;
use vstd::string::*;

verus! {

/// Declares `serde_json::Value`, a JSON value. What is claimed of a value is
/// claimed of the strings it holds, which `json_strings` names.
#[verifier::external_type_specification]
#[verifier::external_body]
pub struct ExValue(serde_json::Value);

/// A path into a JSON value: the keys of the objects passed on the way, the
/// outermost first.
pub type JsonPath = Seq<Seq<char>>;

/// The strings that a JSON value holds, each under the path of object keys
/// that leads to it. A value that is a string itself holds it under the empty
/// path; an object holds under `key` and a path what its member `key` holds
/// under that path; any other value holds none.
pub uninterp spec fn json_strings(v: Value) -> Map<JsonPath, Seq<char>>;

/// Of the strings `m`, those whose path starts with `key`, each under the rest
/// of its path.
pub open spec fn strings_under(m: Map<JsonPath, Seq<char>>, key: Seq<char>) -> Map<
    JsonPath,
    Seq<char>,
> {
    Map::new(|p: JsonPath| m.contains_key(seq![key] + p), |p: JsonPath| m[seq![key] + p])
}

/// The string that `m` holds under `path`, if it holds one.
pub open spec fn string_at(m: Map<JsonPath, Seq<char>>, path: JsonPath) -> Option<Seq<char>> {
    if m.contains_key(path) {
        Some(m[path])
    } else {
        None
    }
}

/// Indexes a `serde_json::Value` by a string, through its `Index` impl.
///
/// Trusted: the result is the member of the object `v` under `key`, so it
/// holds what `v` holds under paths that start with `key`. Where `v` is no
/// object or has no such member, the result is the null value, which holds no
/// string; then `v` holds none under such a path either.
#[verifier::external_body]
pub(crate) fn json_member<'a>(v: &'a Value, key: &str) -> (member: &'a Value)
    ensures
        json_strings(*member) == strings_under(json_strings(*v), key@),
{
    &v[key]
}

/// Calls `serde_json::Value::as_str`.
///
/// Trusted: the result is the string that `v` is, and which it holds under
/// the empty path; there is none where `v` is not a string.
#[verifier::external_body]
pub(crate) fn json_as_str<'a>(v: &'a Value) -> (text: Option<&'a str>)
    ensures
        match text {
            Some(s) => string_at(json_strings(*v), Seq::empty()) == Some(s@),
            None => string_at(json_strings(*v), Seq::empty()) is None,
        },
{
    v.as_str()
}

/// Builds with `serde_json::Map::insert` the object with a string under
/// `key`, and under `outer_key` an object with a string under `inner_key`.
///
/// Trusted: the result holds these two strings under these paths and no
/// other. The two outer keys must differ, or the second member would replace
/// the first.
#[verifier::external_body]
pub(crate) fn json_two_level_object(
    key: &str,
    text: &str,
    outer_key: &str,
    inner_key: &str,
    inner_text: &str,
) -> (v: Value)
    requires
        key@ != outer_key@,
    ensures
        json_strings(v) == map![
            seq![key@] => text@,
            seq![outer_key@, inner_key@] => inner_text@,
        ],
{
    let mut inner = serde_json::Map::new();
    inner.insert(inner_key.to_string(), Value::String(inner_text.to_string()));
    let mut outer = serde_json::Map::new();
    outer.insert(key.to_string(), Value::String(text.to_string()));
    outer.insert(outer_key.to_string(), Value::Object(inner));
    Value::Object(outer)
}

/// The string that `v` holds under the one key `key`, if it holds one.
pub fn json_string_at(v: &Value, key: &str) -> (text: Option<String>)
    ensures
        match text {
            Some(s) => string_at(json_strings(*v), seq![key@]) == Some(s@),
            None => string_at(json_strings(*v), seq![key@]) is None,
        },
{
    let member = json_member(v, key);
    match json_as_str(member) {
        Some(s) => Some(String::from_str(s)),
        None => None,
    }
}

/// The string that `v` holds under `outer_key` and then `inner_key`, if it
/// holds one.
pub fn json_string_at2(v: &Value, outer_key: &str, inner_key: &str) -> (text: Option<String>)
    ensures
        match text {
            Some(s) => string_at(json_strings(*v), seq![outer_key@, inner_key@]) == Some(s@),
            None => string_at(json_strings(*v), seq![outer_key@, inner_key@]) is None,
        },
{
    let outer = json_member(v, outer_key);
    let inner = json_member(outer, inner_key);
    assert(seq![outer_key@] + seq![inner_key@] =~= seq![outer_key@, inner_key@]);
    match json_as_str(inner) {
        Some(s) => Some(String::from_str(s)),
        None => None,
    }
}

} // verus!
