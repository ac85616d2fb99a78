//! JSON documents as trees, read from text by `serde_json`.

use crate::failure::Failure;
use vstd::prelude::*;

verus! {

/// A JSON document.
///
/// Members of an object are kept as a list of key and value, in the order
/// in which the reader hands them out.
#[derive(Debug, PartialEq, Eq)]
pub enum Json {
    /// `null`.
    Null,
    /// `true` or `false`.
    Bool(bool),
    /// A number, as its decimal text.
    Number(String),
    /// A string, with its escapes resolved.
    Text(String),
    /// An array, element by element.
    Array(Vec<Json>),
    /// An object, member by member.
    Object(Vec<Member>),
}

/// One member of a JSON object.
#[derive(Debug, PartialEq, Eq)]
pub struct Member {
    pub key: String,
    pub value: Json,
}

/// The mathematical value of a [`Json`] document. A member of an object is
/// the pair of its key and its value.
pub enum JsonTree {
    Null,
    Bool(bool),
    Number(Seq<char>),
    Text(Seq<char>),
    Array(Seq<JsonTree>),
    Object(Seq<(Seq<char>, JsonTree)>),
}

/// The value of a document: the same tree, with texts and lists as
/// sequences.
pub open spec fn json_tree(document: Json) -> JsonTree
    decreases document,
{
    match document {
        Json::Null => JsonTree::Null,
        Json::Bool(b) => JsonTree::Bool(b),
        Json::Number(digits) => JsonTree::Number(digits@),
        Json::Text(text) => JsonTree::Text(text@),
        Json::Array(items) => JsonTree::Array(
            Seq::new(
                items@.len(),
                |i: int|
                    if 0 <= i < items@.len() {
                        json_tree(items@[i])
                    } else {
                        JsonTree::Null
                    },
            ),
        ),
        Json::Object(members) => JsonTree::Object(
            Seq::new(
                members@.len(),
                |i: int|
                    if 0 <= i < members@.len() {
                        (members@[i].key@, json_tree(members@[i].value))
                    } else {
                        (Seq::<char>::empty(), JsonTree::Null)
                    },
            ),
        ),
    }
}

impl View for Json {
    type V = JsonTree;

    open spec fn view(&self) -> JsonTree {
        json_tree(*self)
    }
}

/// `serde_json::Value`, the tree that `serde_json` builds from a text.
#[verifier::external_type_specification]
#[verifier::external_body]
pub struct ExValue(serde_json::Value);

/// `serde_json::Error`, the reason why `serde_json` rejects a text.
#[verifier::external_type_specification]
#[verifier::external_body]
pub struct ExError(serde_json::Error);

/// The document that `serde_json::from_str` reads from `text`, and `None`
/// where it rejects the text.
pub uninterp spec fn json_of(text: Seq<char>) -> Option<JsonTree>;

/// The document that a `serde_json::Value` holds.
pub uninterp spec fn value_tree(value: serde_json::Value) -> JsonTree;

/// Calls `serde_json::from_str` for a `serde_json::Value`.
///
/// Trusted: the call is a function of the text alone, and [`json_of`] is
/// the name of what it yields.
#[verifier::external_body]
fn read_value(text: &str) -> (parsed: Result<serde_json::Value, serde_json::Error>)
    ensures
        match parsed {
            Ok(value) => json_of(text@) == Some(value_tree(value)),
            Err(_) => json_of(text@) is None,
        },
{
    serde_json::from_str::<serde_json::Value>(text)
}

/// Copies a `serde_json::Value` into a [`Json`], variant by variant.
///
/// Trusted: the copy holds what the value holds. A number is kept as the
/// text that `serde_json::Number` displays; the members of an object come in
/// the order in which `serde_json::Map::iter` walks them.
#[verifier::external_body]
fn copy_value(value: &serde_json::Value) -> (document: Json)
    ensures
        document@ == value_tree(*value),
{
    match value {
        serde_json::Value::Null => Json::Null,
        serde_json::Value::Bool(b) => Json::Bool(*b),
        serde_json::Value::Number(n) => Json::Number(n.to_string()),
        serde_json::Value::String(s) => Json::Text(s.clone()),
        serde_json::Value::Array(items) => Json::Array(items.iter().map(copy_value).collect()),
        serde_json::Value::Object(members) => Json::Object(
            members.iter().map(|(key, item)| Member { key: key.clone(), value: copy_value(item) }).collect(),
        ),
    }
}

/// Reads a JSON document from text.
///
/// Succeeds exactly on the texts that `serde_json` accepts as one JSON value;
/// every other text is a [`Failure::ParseError`].
pub fn parse_document(text: &str) -> (parsed: Result<Json, Failure>)
    ensures
        match json_of(text@) {
            Some(tree) => parsed matches Ok(document) && document@ == tree,
            None => parsed == Err::<Json, Failure>(Failure::ParseError),
        },
{
    match read_value(text) {
        Ok(value) => Ok(copy_value(&value)),
        Err(_) => Err(Failure::ParseError),
    }
}

} // verus!
