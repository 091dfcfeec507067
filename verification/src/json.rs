//! Reading single fields out of a JSON text.

use vstd::prelude::*;

verus! {

/// The compact text of the member `name` of the JSON object that `doc`
/// spells, as `serde_json` reads and prints it; `None` where `doc` is no JSON
/// text, is no object, or has no such member.
pub uninterp spec fn json_member(doc: Seq<char>, name: Seq<char>) -> Option<Seq<char>>;

/// The compact text of the element at `index` of the JSON array that `doc`
/// spells, as `serde_json` reads and prints it; `None` where `doc` is no JSON
/// text, is no array, or is too short.
pub uninterp spec fn json_element(doc: Seq<char>, index: usize) -> Option<Seq<char>>;

/// The view of an optional string.
pub open spec fn text_view(s: Option<String>) -> Option<Seq<char>> {
    match s {
        Some(t) => Some(t@),
        None => None,
    }
}

/// Calls `serde_json::from_str` for a `serde_json::Value`, then
/// `Value::get` with a string index, and prints the member found with
/// `to_string`. Trusted: the result is a function of the two texts alone,
/// named `json_member`; a text that does not parse gives `None`.
#[verifier::external_body]
fn member_text(doc: &str, name: &str) -> (r: Option<String>)
    ensures
        text_view(r) == json_member(doc@, name@),
{
    match serde_json::from_str::<serde_json::Value>(doc) {
        Ok(value) => match value.get(name) {
            Some(found) => Some(found.to_string()),
            None => None,
        },
        Err(_) => None,
    }
}

/// Calls `serde_json::from_str` for a `serde_json::Value`, then
/// `Value::get` with a position, and prints the element found with
/// `to_string`. Trusted: the result is a function of the text and the
/// position alone, named `json_element`; a text that does not parse gives
/// `None`.
#[verifier::external_body]
fn element_text(doc: &str, index: usize) -> (r: Option<String>)
    ensures
        text_view(r) == json_element(doc@, index),
{
    match serde_json::from_str::<serde_json::Value>(doc) {
        Ok(value) => match value.get(index) {
            Some(found) => Some(found.to_string()),
            None => None,
        },
        Err(_) => None,
    }
}

/// The text of the condition code in a weather report: the member `id` of
/// the first element of the member `weather`.
pub open spec fn condition_code(body: Seq<char>) -> Option<Seq<char>> {
    match json_member(body, "weather"@) {
        Some(list) => match json_element(list, 0) {
            Some(first) => json_member(first, "id"@),
            None => None,
        },
        None => None,
    }
}

/// Finds the condition code of a weather report, or `None` where the report
/// is malformed: no JSON, no `weather` list, an empty list, or a first
/// element without `id`.
pub fn extract_condition_code(body: &str) -> (r: Option<String>)
    ensures
        text_view(r) == condition_code(body@),
{
    match member_text(body, "weather") {
        Some(list) => match element_text(list.as_str(), 0) {
            Some(first) => member_text(first.as_str(), "id"),
            None => None,
        },
        None => None,
    }
}

} // verus!
