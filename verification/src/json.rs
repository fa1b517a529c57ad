//! JSON values, parsed and held by `serde_json`.
//!
//! The library reads nothing from a JSON value but strings that sit under
//! object keys. So a value is taken for the strings it holds, each filed
//! under the keys that lead to it.

use vstd::prelude::*;

verus! {

#[verifier::external_type_specification]
#[verifier::external_body]
pub struct ExValue(serde_json::Value);

/// The strings that a JSON value holds, each under the sequence of object
/// keys that leads to it. A JSON string holds itself under the empty path. An
/// object holds, under a key followed by a path, what its member of that key
/// holds under the path. Any other value holds nothing.
pub uninterp spec fn json_strings(value: serde_json::Value) -> Map<Seq<Seq<char>>, Seq<char>>;

/// The strings of the JSON document that `bytes` spell, or `None` where
/// `bytes` are not one JSON document.
pub uninterp spec fn json_document(bytes: Seq<u8>) -> Option<Map<Seq<Seq<char>>, Seq<char>>>;

/// Of `strings`, those filed under `key`, with `key` taken off their paths.
pub open spec fn strings_below(
    strings: Map<Seq<Seq<char>>, Seq<char>>,
    key: Seq<char>,
) -> Map<Seq<Seq<char>>, Seq<char>> {
    Map::new(
        |path: Seq<Seq<char>>| strings.contains_key(seq![key] + path),
        |path: Seq<Seq<char>>| strings[seq![key] + path],
    )
}

/// The string filed under `path`, if there is one.
pub open spec fn string_at(
    strings: Map<Seq<Seq<char>>, Seq<char>>,
    path: Seq<Seq<char>>,
) -> Option<Seq<char>> {
    if strings.contains_key(path) {
        Some(strings[path])
    } else {
        None
    }
}

/// Parses `bytes` with `serde_json::from_slice` into a `serde_json::Value`.
///
/// The parser depends on its input alone, so the contract names what it
/// returns: the document's value, or nothing where the parser reports an error.
#[verifier::external_body]
pub(crate) fn from_slice(bytes: &[u8]) -> (parsed: Option<serde_json::Value>)
    ensures
        match parsed {
            Some(value) => json_document(bytes@) == Some(json_strings(value)),
            None => json_document(bytes@) is None,
        },
{
    serde_json::from_slice(bytes).ok()
}

/// The member of `value` under `key`, by `serde_json::Value::get`.
///
/// `get` with a string looks the key up where the value is an object and
/// finds nothing in any other value. What it finds holds the strings that
/// the object files under the key; where it finds nothing, the value files
/// no string under the key.
#[verifier::external_body]
pub(crate) fn member<'a>(value: &'a serde_json::Value, key: &str) -> (found: Option<
    &'a serde_json::Value,
>)
    ensures
        match found {
            Some(member) => json_strings(*member) == strings_below(json_strings(*value), key@),
            None => forall|path: Seq<Seq<char>>|
                !(#[trigger] json_strings(*value).contains_key(seq![key@] + path)),
        },
{
    value.get(key)
}

/// `serde_json::Value::as_str` yields the text of a value that is a JSON
/// string and nothing for any other value: the one string that a value can
/// hold under the empty path.
pub assume_specification<'a>[ serde_json::Value::as_str ](value: &'a serde_json::Value) -> (text:
    Option<&'a str>)
    ensures
        match text {
            Some(text) => json_strings(*value).contains_key(Seq::empty()) && json_strings(
                *value,
            )[Seq::empty()] == text@,
            None => !json_strings(*value).contains_key(Seq::empty()),
        },
;

/// The string that `value` holds under `key`, if it is an object with a
/// string for that key.
pub fn string_member(value: &serde_json::Value, key: &str) -> (text: Option<String>)
    ensures
        text.deep_view() == string_at(json_strings(*value), seq![key@]),
{
    proof {
        assert(seq![key@] + Seq::<Seq<char>>::empty() =~= seq![key@]);
    }
    match member(value, key) {
        Some(found) => match found.as_str() {
            Some(text) => Some(text.to_owned()),
            None => None,
        },
        None => None,
    }
}

} // verus!
