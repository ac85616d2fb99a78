//! The configuration document: a JSON list of connection entries.
//!
//! A configuration is a JSON array. Each of its elements is an object with
//! the string members `name` and `connection`; members under other keys are
//! passed over. Nothing else is asked of an entry.

use crate::entry::{ConnectionEntry, EntryView};
use crate::failure::Failure;
use crate::json::{json_of, parse_document, Json, JsonTree, Member};
use vstd::prelude::*;
use vstd::string::StringExecFns;

verus! {

/// The key of the member that holds an entry's label.
pub open spec fn name_key() -> Seq<char> {
    "name"@
}

/// The key of the member that holds an entry's SSH target.
pub open spec fn connection_key() -> Seq<char> {
    "connection"@
}

/// The value of the first member at or after position `from` whose key is
/// `key`.
pub open spec fn member_from(members: Seq<(Seq<char>, JsonTree)>, key: Seq<char>, from: int) -> Option<JsonTree>
    decreases members.len() - from,
{
    if from < 0 || from >= members.len() {
        None
    } else if members[from].0 == key {
        Some(members[from].1)
    } else {
        member_from(members, key, from + 1)
    }
}

/// The text under `key`: the value of the first member with that key, where
/// it is a string.
pub open spec fn text_member(members: Seq<(Seq<char>, JsonTree)>, key: Seq<char>) -> Option<Seq<char>> {
    match member_from(members, key, 0) {
        Some(JsonTree::Text(text)) => Some(text),
        _ => None,
    }
}

/// The entry that a JSON value stands for: an object whose `name` and
/// `connection` are both strings.
pub open spec fn entry_of(tree: JsonTree) -> Option<EntryView> {
    match tree {
        JsonTree::Object(members) => match (
            text_member(members, name_key()),
            text_member(members, connection_key()),
        ) {
            (Some(name), Some(connection)) => Some(EntryView { name, connection }),
            _ => None,
        },
        _ => None,
    }
}

/// The entries that a JSON document lists: it is an array, and each of its
/// elements stands for an entry. The entries keep the order of the array.
pub open spec fn entries_of(tree: JsonTree) -> Option<Seq<EntryView>> {
    match tree {
        JsonTree::Array(items) => if forall|i: int| 0 <= i < items.len() ==> (#[trigger] entry_of(items[i])) is Some {
            Some(Seq::new(items.len(), |i: int| entry_of(items[i])->0))
        } else {
            None
        },
        _ => None,
    }
}

/// What decoding a document gives: its entries, or a parse error.
pub open spec fn decoded(tree: JsonTree) -> Result<Seq<EntryView>, Failure> {
    match entries_of(tree) {
        Some(entries) => Ok(entries),
        None => Err(Failure::ParseError),
    }
}

/// What parsing a configuration text gives: the entries of the document
/// that the text holds, or a parse error where the text is no JSON or the
/// document is no list of entries.
pub open spec fn parsed(text: Seq<char>) -> Result<Seq<EntryView>, Failure> {
    match json_of(text) {
        Some(tree) => decoded(tree),
        None => Err(Failure::ParseError),
    }
}

/// Looks up the text under `key` among the members of an object.
fn find_text(members: &Vec<Member>, key: &String) -> (found: Option<String>)
    ensures
        Json::Object(*members)@ matches JsonTree::Object(all) && found.deep_view() == text_member(all, key@),
{
    let ghost all = Json::Object(*members)@->Object_0;
    let mut i: usize = 0;
    while i < members.len()
        invariant
            i <= members.len(),
            all == Json::Object(*members)@->Object_0,
            all.len() == members.len(),
            forall|j: int| 0 <= j < members.len() ==> all[j] == ((#[trigger] members[j]).key@, members[j].value@),
            member_from(all, key@, 0) == member_from(all, key@, i as int),
        decreases members.len() - i,
    {
        if members[i].key == *key {
            return match &members[i].value {
                Json::Text(text) => Some(text.clone()),
                _ => None,
            };
        }
        i += 1;
    }
    None
}

/// Decodes one element of the list.
fn decode_entry(item: &Json) -> (entry: Option<ConnectionEntry>)
    ensures
        entry.deep_view() == entry_of(item@),
{
    match item {
        Json::Object(members) => {
            let name = find_text(members, &String::from_str("name"));
            let connection = find_text(members, &String::from_str("connection"));
            match (name, connection) {
                (Some(name), Some(connection)) => Some(ConnectionEntry { name, connection }),
                _ => None,
            }
        },
        _ => None,
    }
}

/// Decodes a configuration document into its entries, in the order of the
/// document.
///
/// Fails with [`Failure::ParseError`] exactly where the document is not an
/// array, or one of its elements is not an object, or lacks a `name` or a
/// `connection`, or holds something other than a string under one of them.
/// An empty array is a valid configuration without entries.
pub fn decode_entries(document: &Json) -> (outcome: Result<Vec<ConnectionEntry>, Failure>)
    ensures
        match decoded(document@) {
            Ok(listed) => outcome matches Ok(entries) && entries.deep_view() == listed,
            Err(failure) => outcome == Err::<Vec<ConnectionEntry>, Failure>(failure),
        },
{
    match document {
        Json::Array(items) => {
            let ghost trees = document@->Array_0;
            let mut entries: Vec<ConnectionEntry> = Vec::new();
            let mut i: usize = 0;
            while i < items.len()
                invariant
                    i <= items.len(),
                    document@ == JsonTree::Array(trees),
                    trees.len() == items.len(),
                    forall|j: int| 0 <= j < items.len() ==> trees[j] == (#[trigger] items[j])@,
                    entries.len() == i,
                    forall|j: int| 0 <= j < i ==> #[trigger] entry_of(trees[j]) == Some(entries[j]@),
                decreases items.len() - i,
            {
                match decode_entry(&items[i]) {
                    Some(entry) => {
                        entries.push(entry);
                    },
                    None => {
                        return Err(Failure::ParseError);
                    },
                }
                i += 1;
            }
            Ok(entries)
        },
        _ => Err(Failure::ParseError),
    }
}

/// Parses the text of a configuration file into its entries.
///
/// The text is read as JSON by `serde_json`; the document is then decoded
/// as [`decode_entries`] says.
pub fn parse_connections(text: &str) -> (outcome: Result<Vec<ConnectionEntry>, Failure>)
    ensures
        match parsed(text@) {
            Ok(listed) => outcome matches Ok(entries) && entries.deep_view() == listed,
            Err(failure) => outcome == Err::<Vec<ConnectionEntry>, Failure>(failure),
        },
{
    match parse_document(text) {
        Ok(document) => decode_entries(&document),
        Err(failure) => Err(failure),
    }
}

/// Whether `tree` is an entry as it is written: an object of two members,
/// the `name` and the `connection` of `entry`, both strings, in either
/// order.
pub open spec fn states_entry(tree: JsonTree, entry: EntryView) -> bool {
    &&& tree matches JsonTree::Object(members)
    &&& members.len() == 2
    &&& {
        let name = (name_key(), JsonTree::Text(entry.name));
        let connection = (connection_key(), JsonTree::Text(entry.connection));
        ||| members[0] == name && members[1] == connection
        ||| members[0] == connection && members[1] == name
    }
}

/// Whether `tree` is `entries` as a configuration is written: an array with
/// one element for each entry, in the same order.
pub open spec fn lists_entries(tree: JsonTree, entries: Seq<EntryView>) -> bool {
    &&& tree matches JsonTree::Array(items)
    &&& items.len() == entries.len()
    &&& forall|i: int| 0 <= i < entries.len() ==> states_entry(#[trigger] items[i], entries[i])
}

/// The two keys of an entry differ, so neither member is taken for the
/// other.
pub proof fn lemma_keys_differ()
    ensures
        name_key() != connection_key(),
{
    reveal_strlit("name");
    reveal_strlit("connection");
    assert(name_key().len() != connection_key().len());
}

/// An entry that is written down is read back as it was.
pub proof fn lemma_entry_round_trip(tree: JsonTree, entry: EntryView)
    requires
        states_entry(tree, entry),
    ensures
        entry_of(tree) == Some(entry),
{
    lemma_keys_differ();
    reveal_with_fuel(member_from, 3);
}

/// Round trip: a document that lists `entries` in the written shape decodes
/// to exactly those entries, in the same order.
pub proof fn lemma_document_round_trip(tree: JsonTree, entries: Seq<EntryView>)
    requires
        lists_entries(tree, entries),
    ensures
        decoded(tree) == Ok::<Seq<EntryView>, Failure>(entries),
{
    let items = tree->Array_0;
    assert forall|i: int| 0 <= i < items.len() implies #[trigger] entry_of(items[i]) == Some(entries[i]) by {
        lemma_entry_round_trip(items[i], entries[i]);
    }
    assert(entries_of(tree)->0 =~= entries);
}

/// Round trip through text: a text that holds `entries` in the written
/// shape parses to exactly those entries, in the same order.
pub proof fn lemma_text_round_trip(text: Seq<char>, entries: Seq<EntryView>)
    ensures
        json_of(text) matches Some(tree) && lists_entries(tree, entries) ==> parsed(text) == Ok::<
            Seq<EntryView>,
            Failure,
        >(entries),
{
    if json_of(text) matches Some(tree) && lists_entries(tree, entries) {
        lemma_document_round_trip(json_of(text)->0, entries);
    }
}

/// Whether the element at `position` of a document is an object that lacks
/// a string under `name` or under `connection`.
pub open spec fn lacks_field(tree: JsonTree, position: int) -> bool {
    &&& tree matches JsonTree::Array(items)
    &&& 0 <= position < items.len()
    &&& items[position] matches JsonTree::Object(members)
    &&& (text_member(members, name_key()) is None || text_member(members, connection_key()) is None)
}

/// A document with an entry that lacks `name` or `connection` is a parse
/// error, wherever the entry stands and whatever the other entries hold.
pub proof fn lemma_missing_field_is_parse_error(tree: JsonTree, position: int)
    requires
        lacks_field(tree, position),
    ensures
        decoded(tree) == Err::<Seq<EntryView>, Failure>(Failure::ParseError),
{
    let items = tree->Array_0;
    assert(entry_of(items[position]) is None);
}

} // verus!
