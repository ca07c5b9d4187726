//! JSON documents as `serde_json` holds them, with a mathematical model of
//! their contents and the few accessors the decoder needs.

use vstd::prelude::*;

verus! {

/// The contents of a JSON document as a mathematical tree.
///
/// Numbers carry no payload: nothing in this library reads one.
pub enum JsonTree {
    Null,
    Bool(bool),
    Number,
    Text(Seq<char>),
    Array(Seq<JsonTree>),
    Object(Map<Seq<char>, JsonTree>),
}

/// `serde_json::Value`: a JSON document in memory. Nothing of its inside is
/// visible here; what it holds is spoken of through `json_tree`.
#[verifier::external_type_specification]
#[verifier::external_body]
pub struct ExJsonValue(serde_json::Value);

/// `serde_json::Error`: why a text was rejected. It is only carried from
/// the parser to the place where it becomes an error of this library.
#[verifier::external_type_specification]
#[verifier::external_body]
pub struct ExJsonError(serde_json::Error);

/// What a `serde_json::Value` holds, variant by variant: `Null` for null, the
/// truth value of a boolean, `Number` for every number, the characters of a
/// string, the contents of the elements of an array in their order, and for
/// an object the map from each key to the contents of its value.
pub uninterp spec fn json_tree(value: serde_json::Value) -> JsonTree;

/// The document that `serde_json::from_str` reads from a text, or `None`
/// where it rejects the text.
pub uninterp spec fn parsed_json(text: Seq<char>) -> Option<JsonTree>;

/// The member of `tree` under `key`, or `Null` where `tree` is no object or
/// has no such member.
pub open spec fn member_of(tree: JsonTree, key: Seq<char>) -> JsonTree {
    match tree {
        JsonTree::Object(members) => if members.contains_key(key) {
            members[key]
        } else {
            JsonTree::Null
        },
        _ => JsonTree::Null,
    }
}

/// The element of `tree` at `index`, or `Null` where `tree` is no array or
/// is too short.
pub open spec fn element_of(tree: JsonTree, index: int) -> JsonTree {
    match tree {
        JsonTree::Array(elements) => if 0 <= index < elements.len() {
            elements[index]
        } else {
            JsonTree::Null
        },
        _ => JsonTree::Null,
    }
}

/// Calls `serde_json::from_str` for a `serde_json::Value`. The outcome is a
/// function of the text alone: a value holding `parsed_json(text)` where
/// that is a document, an error where it is not.
#[verifier::external_body]
pub(crate) fn parse_json(text: &str) -> (result: Result<serde_json::Value, serde_json::Error>)
    ensures
        match result {
            Ok(value) => parsed_json(text@) == Some(json_tree(value)),
            Err(_) => parsed_json(text@) is None,
        },
{
    serde_json::from_str(text)
}

/// Indexes a `serde_json::Value` by a string, as `value[key]` does: the
/// member under `key`, or a null value where there is none.
#[verifier::external_body]
pub(crate) fn member<'a>(value: &'a serde_json::Value, key: &str) -> (result: &'a serde_json::Value)
    ensures
        json_tree(*result) == member_of(json_tree(*value), key@),
{
    &value[key]
}

/// Indexes a `serde_json::Value` by a position, as `value[index]` does: the
/// element at `index`, or a null value where there is none.
#[verifier::external_body]
pub(crate) fn element<'a>(value: &'a serde_json::Value, index: usize) -> (result:
    &'a serde_json::Value)
    ensures
        json_tree(*result) == element_of(json_tree(*value), index as int),
{
    &value[index]
}

/// Calls `serde_json::Value::as_array`: the elements where the value is an
/// array, `None` where it is anything else.
#[verifier::external_body]
pub(crate) fn as_array<'a>(value: &'a serde_json::Value) -> (result: Option<
    &'a Vec<serde_json::Value>,
>)
    ensures
        match result {
            Some(elements) => json_tree(*value) == JsonTree::Array(
                elements@.map_values(|element: serde_json::Value| json_tree(element)),
            ),
            None => !(json_tree(*value) is Array),
        },
{
    value.as_array()
}

/// Calls `serde_json::Value::as_str`: the text where the value is a string,
/// `None` where it is anything else.
#[verifier::external_body]
pub(crate) fn as_text<'a>(value: &'a serde_json::Value) -> (result: Option<&'a str>)
    ensures
        match result {
            Some(text) => json_tree(*value) == JsonTree::Text(text@),
            None => !(json_tree(*value) is Text),
        },
{
    value.as_str()
}

} // verus!
