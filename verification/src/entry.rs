//! Connection entries and the labels under which they are shown.

use vstd::prelude::*;

verus! {

/// One named SSH target of the configuration file.
///
/// Neither field is interpreted: names may repeat or be empty, and the
/// connection is handed to the SSH client as it stands.
#[derive(Debug, PartialEq, Eq)]
pub struct ConnectionEntry {
    /// The label shown in the picker.
    pub name: String,
    /// The target given to the SSH client, such as `user@host` or an alias.
    pub connection: String,
}

/// The mathematical value of a [`ConnectionEntry`].
pub struct EntryView {
    pub name: Seq<char>,
    pub connection: Seq<char>,
}

impl View for ConnectionEntry {
    type V = EntryView;

    open spec fn view(&self) -> EntryView {
        EntryView { name: self.name@, connection: self.connection@ }
    }
}

impl DeepView for ConnectionEntry {
    type V = EntryView;

    open spec fn deep_view(&self) -> EntryView {
        self@
    }
}

impl Clone for ConnectionEntry {
    /// An entry with the same name and connection.
    fn clone(&self) -> (copy: ConnectionEntry)
        ensures
            copy@ == self@,
    {
        ConnectionEntry { name: self.name.clone(), connection: self.connection.clone() }
    }
}

/// The labels of a list of entries: the name of each, in the same order.
pub open spec fn labels_of(entries: Seq<EntryView>) -> Seq<Seq<char>> {
    Seq::new(entries.len(), |i: int| entries[i].name)
}

/// The labels under which the entries are shown, one for each entry and in
/// the order of the entries.
pub fn labels(entries: &Vec<ConnectionEntry>) -> (shown: Vec<String>)
    ensures
        shown.deep_view() == labels_of(entries.deep_view()),
        shown.len() == entries.len(),
        forall|i: int| 0 <= i < entries.len() ==> (#[trigger] shown[i])@ == entries[i].name@,
{
    let mut shown: Vec<String> = Vec::new();
    let mut i: usize = 0;
    while i < entries.len()
        invariant
            i <= entries.len(),
            shown.len() == i,
            forall|j: int| 0 <= j < i ==> (#[trigger] shown[j])@ == entries[j].name@,
        decreases entries.len() - i,
    {
        shown.push(entries[i].name.clone());
        i += 1;
    }
    shown
}

/// The connection of the entry at `index`, and `None` where the list has no
/// such entry. Entries are found by position alone, never by name.
pub fn connection_at(entries: &Vec<ConnectionEntry>, index: usize) -> (target: Option<String>)
    ensures
        match target {
            Some(connection) => index < entries.len() && connection@ == entries[index as int].connection@,
            None => index >= entries.len(),
        },
{
    if index < entries.len() {
        Some(entries[index].connection.clone())
    } else {
        None
    }
}

} // verus!
