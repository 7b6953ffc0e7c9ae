//! JSON documents, handled as their text. serde_json parses and renders
//! them; each reading returns the compact text of what it reaches, so that
//! what the library reads of a document is a function of texts alone.
use vstd::prelude::*;

verus! {

/// What `serde_json::from_str` makes of `text`: the compact rendering of
/// the value it parses, or the message of the error it reports.
pub uninterp spec fn json_parsed(text: Seq<char>) -> Result<Seq<char>, Seq<char>>;

/// What `serde_json::Value::get` gives for the member `key` of the
/// document `document`, as compact text: present only where the document
/// is an object with that member.
pub uninterp spec fn json_member(document: Seq<char>, key: Seq<char>) -> Option<Seq<char>>;

/// What `serde_json::Value::as_str` gives for `document`: its characters,
/// where the document is a JSON string.
pub uninterp spec fn json_string(document: Seq<char>) -> Option<Seq<char>>;

/// What `serde_json::Value::as_array` gives for `document`: the compact
/// texts of its elements, in order, where the document is an array.
pub uninterp spec fn json_elements(document: Seq<char>) -> Option<Seq<Seq<char>>>;

/// Calls `serde_json::from_str::<serde_json::Value>` on `text` and renders
/// the value compactly (`Value::to_string`); the error is rendered with
/// `Error::to_string`. Both are named by `json_parsed`.
#[verifier::external_body]
pub(crate) fn parse_json(text: &str) -> (result: Result<String, String>)
    ensures
        (match result {
            Ok(document) => json_parsed(text@) == Ok::<Seq<char>, Seq<char>>(document@),
            Err(message) => json_parsed(text@) == Err::<Seq<char>, Seq<char>>(message@),
        }),
{
    match serde_json::from_str::<serde_json::Value>(text) {
        Ok(value) => Ok(value.to_string()),
        Err(error) => Err(error.to_string()),
    }
}

/// Calls `serde_json::Value::get(key)` on the value parsed from
/// `document`, rendering the member compactly; named by `json_member`.
#[verifier::external_body]
pub(crate) fn member(document: &str, key: &str) -> (found: Option<String>)
    ensures
        found.deep_view() == json_member(document@, key@),
{
    serde_json::from_str::<serde_json::Value>(document).ok()?.get(key).map(serde_json::Value::to_string)
}

/// Calls `serde_json::Value::as_str` on the value parsed from `document`;
/// named by `json_string`.
#[verifier::external_body]
pub(crate) fn string_value(document: &str) -> (text: Option<String>)
    ensures
        text.deep_view() == json_string(document@),
{
    serde_json::from_str::<serde_json::Value>(document).ok()?.as_str().map(str::to_owned)
}

/// Calls `serde_json::Value::as_array` on the value parsed from `document`,
/// rendering each element compactly; named by `json_elements`.
#[verifier::external_body]
pub(crate) fn elements(document: &str) -> (items: Option<Vec<String>>)
    ensures
        (match items {
            Some(items) => json_elements(document@) == Some(items@.map_values(|item: String| item@)),
            None => json_elements(document@) is None,
        }),
{
    let value = serde_json::from_str::<serde_json::Value>(document).ok()?;
    value.as_array().map(|items| items.iter().map(serde_json::Value::to_string).collect())
}

/// The string member `key` of `document`, where it has one.
pub open spec fn string_member(document: Seq<char>, key: Seq<char>) -> Option<Seq<char>> {
    match json_member(document, key) {
        Some(found) => json_string(found),
        None => None,
    }
}

/// The elements of the array member `key` of `document`, where it has one.
pub open spec fn array_member(document: Seq<char>, key: Seq<char>) -> Option<Seq<Seq<char>>> {
    match json_member(document, key) {
        Some(found) => json_elements(found),
        None => None,
    }
}

/// Reads the string member `key` of `document`.
pub(crate) fn string_member_of(document: &str, key: &str) -> (text: Option<String>)
    ensures
        text.deep_view() == string_member(document@, key@),
{
    match member(document, key) {
        Some(found) => string_value(found.as_str()),
        None => None,
    }
}

/// Reads the elements of the array member `key` of `document`.
pub(crate) fn array_member_of(document: &str, key: &str) -> (items: Option<Vec<String>>)
    ensures
        (match items {
            Some(items) => array_member(document@, key@) == Some(
                items@.map_values(|item: String| item@),
            ),
            None => array_member(document@, key@) is None,
        }),
{
    match member(document, key) {
        Some(found) => elements(found.as_str()),
        None => None,
    }
}

} // verus!
