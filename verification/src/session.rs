//! A run of the tool as a state machine.
//!
//! The machine makes every decision of a run and leaves the outside work to
//! its driver. Each state has one pending [`Action`]: the driver performs
//! it and reports what came of it as an [`Event`], which [`step`] answers
//! with the next state. A run ends in [`State::Done`] or in
//! [`State::Failed`]; from either no event leads anywhere else.

use crate::config::{entry_of, lacks_field, lemma_missing_field_is_parse_error, parse_connections, parsed};
use crate::entry::{labels, labels_of, ConnectionEntry, EntryView};
use crate::failure::Failure;
use crate::json::{json_of, JsonTree};
use crate::locate::{config_path, resolve_path, resolved};
use vstd::prelude::*;
use vstd::string::StringExecFns;

verus! {

/// Where a run stands.
#[derive(Debug, PartialEq, Eq)]
pub enum State {
    /// The configuration file at `path` is to be read.
    Reading { path: String },
    /// The user is to pick one of `entries`, of which there is at least one.
    Prompting { entries: Vec<ConnectionEntry> },
    /// The SSH client is to be started on `entry`.
    Spawning { entry: ConnectionEntry },
    /// The SSH client runs and is waited for.
    Waiting,
    /// The SSH client has ended, with whatever result of its own.
    Done,
    /// The run has ended without an SSH session.
    Failed { failure: Failure },
}

/// What the driver reports back.
#[derive(Debug, PartialEq, Eq)]
pub enum Event {
    /// The file was read as `text`, or could not be read.
    FileRead { text: Option<String> },
    /// The user picked the entry at `index`, or left the prompt.
    Selected { index: Option<usize> },
    /// The SSH client was started, or could not be.
    Spawned { started: bool },
    /// The SSH client has ended, or waiting for it failed.
    Exited { waited: bool },
}

/// What the driver is to do next.
#[derive(Debug, PartialEq, Eq)]
pub enum Action {
    /// Read the file at `path` as text.
    ReadFile { path: String },
    /// Show `labels` under `title` with the label at `preselected`
    /// highlighted, and let the user pick one.
    Prompt { title: String, labels: Vec<String>, preselected: usize },
    /// Confirm the choice of `label`, then start `program` with `argument`
    /// as its only argument and with the streams of this process.
    Launch { label: String, program: String, argument: String },
    /// Wait until the SSH client ends.
    Wait,
    /// End the process with success.
    Finish,
    /// Report `failure` and end the process without success.
    Fail { failure: Failure },
}

/// The mathematical value of a [`State`].
pub enum StateView {
    Reading { path: Seq<char> },
    Prompting { entries: Seq<EntryView> },
    Spawning { entry: EntryView },
    Waiting,
    Done,
    Failed { failure: Failure },
}

/// The mathematical value of an [`Event`].
pub enum EventView {
    FileRead { text: Option<Seq<char>> },
    Selected { index: Option<int> },
    Spawned { started: bool },
    Exited { waited: bool },
}

/// The mathematical value of an [`Action`].
pub enum ActionView {
    ReadFile { path: Seq<char> },
    Prompt { title: Seq<char>, labels: Seq<Seq<char>>, preselected: int },
    Launch { label: Seq<char>, program: Seq<char>, argument: Seq<char> },
    Wait,
    Finish,
    Fail { failure: Failure },
}

impl View for State {
    type V = StateView;

    open spec fn view(&self) -> StateView {
        match self {
            State::Reading { path } => StateView::Reading { path: path@ },
            State::Prompting { entries } => StateView::Prompting { entries: entries.deep_view() },
            State::Spawning { entry } => StateView::Spawning { entry: entry@ },
            State::Waiting => StateView::Waiting,
            State::Done => StateView::Done,
            State::Failed { failure } => StateView::Failed { failure: *failure },
        }
    }
}

impl View for Event {
    type V = EventView;

    open spec fn view(&self) -> EventView {
        match self {
            Event::FileRead { text } => EventView::FileRead { text: text.deep_view() },
            Event::Selected { index } => EventView::Selected {
                index: match index {
                    Some(i) => Some(*i as int),
                    None => None,
                },
            },
            Event::Spawned { started } => EventView::Spawned { started: *started },
            Event::Exited { waited } => EventView::Exited { waited: *waited },
        }
    }
}

impl View for Action {
    type V = ActionView;

    open spec fn view(&self) -> ActionView {
        match self {
            Action::ReadFile { path } => ActionView::ReadFile { path: path@ },
            Action::Prompt { title, labels, preselected } => ActionView::Prompt {
                title: title@,
                labels: labels.deep_view(),
                preselected: *preselected as int,
            },
            Action::Launch { label, program, argument } => ActionView::Launch {
                label: label@,
                program: program@,
                argument: argument@,
            },
            Action::Wait => ActionView::Wait,
            Action::Finish => ActionView::Finish,
            Action::Fail { failure } => ActionView::Fail { failure: *failure },
        }
    }
}

/// The title of the prompt.
pub open spec fn prompt_title() -> Seq<char> {
    "Select a connection"@
}

/// The name of the SSH client, which is looked up on the search path.
pub open spec fn ssh_program() -> Seq<char> {
    "ssh"@
}

/// The state in which a run starts, given where its configuration lies.
pub open spec fn started(located: Result<Seq<char>, Failure>) -> StateView {
    match located {
        Ok(path) => StateView::Reading { path },
        Err(failure) => StateView::Failed { failure },
    }
}

/// The state after the configuration was parsed: a prompt over its entries,
/// or a failure where it did not parse or lists nothing.
pub open spec fn loaded(outcome: Result<Seq<EntryView>, Failure>) -> StateView {
    match outcome {
        Ok(entries) => if entries.len() == 0 {
            StateView::Failed { failure: Failure::NoConnections }
        } else {
            StateView::Prompting { entries }
        },
        Err(failure) => StateView::Failed { failure },
    }
}

/// The state that follows `state` on `event`.
///
/// An event that does not answer the pending action of the state, or that
/// picks a position at which there is no entry, leaves the state as it is.
pub open spec fn next_state(state: StateView, event: EventView) -> StateView {
    match (state, event) {
        (StateView::Reading { .. }, EventView::FileRead { text: Some(text) }) => loaded(parsed(text)),
        (StateView::Reading { .. }, EventView::FileRead { text: None }) => StateView::Failed {
            failure: Failure::FileReadError,
        },
        (StateView::Prompting { entries }, EventView::Selected { index: Some(i) }) => if 0 <= i < entries.len() {
            StateView::Spawning { entry: entries[i] }
        } else {
            state
        },
        (StateView::Prompting { .. }, EventView::Selected { index: None }) => StateView::Failed {
            failure: Failure::SelectionAborted,
        },
        (StateView::Spawning { .. }, EventView::Spawned { started }) => if started {
            StateView::Waiting
        } else {
            StateView::Failed { failure: Failure::SpawnError }
        },
        (StateView::Waiting, EventView::Exited { waited }) => if waited {
            StateView::Done
        } else {
            StateView::Failed { failure: Failure::WaitError }
        },
        _ => state,
    }
}

/// The action that is pending in `state`.
pub open spec fn pending_of(state: StateView) -> ActionView {
    match state {
        StateView::Reading { path } => ActionView::ReadFile { path },
        StateView::Prompting { entries } => ActionView::Prompt {
            title: prompt_title(),
            labels: labels_of(entries),
            preselected: 0,
        },
        StateView::Spawning { entry } => ActionView::Launch {
            label: entry.name,
            program: ssh_program(),
            argument: entry.connection,
        },
        StateView::Waiting => ActionView::Wait,
        StateView::Done => ActionView::Finish,
        StateView::Failed { failure } => ActionView::Fail { failure },
    }
}

/// The state after a whole sequence of events, taken in order.
pub open spec fn run(state: StateView, events: Seq<EventView>) -> StateView
    decreases events.len(),
{
    if events.len() == 0 {
        state
    } else {
        run(next_state(state, events[0]), events.drop_first())
    }
}

impl StateView {
    /// Whether the state can come up in a run: a prompt is over at least
    /// one entry.
    pub open spec fn well_formed(self) -> bool {
        self matches StateView::Prompting { entries } ==> entries.len() >= 1
    }

    /// Whether the run has ended.
    pub open spec fn is_final(self) -> bool {
        self is Done || self is Failed
    }
}

/// Starts a run from what is known of the configuration path.
pub fn start(located: Result<String, Failure>) -> (state: State)
    ensures
        state@ == started(
            match located {
                Ok(path) => Ok(path@),
                Err(failure) => Err(failure),
            },
        ),
        state@.well_formed(),
{
    match located {
        Ok(path) => State::Reading { path },
        Err(failure) => State::Failed { failure },
    }
}

/// Starts a run for a user whose home directory is `home`.
///
/// The run reads `explicit` where it is given and the default path below
/// `home` where it is not.
pub fn begin_with(explicit: Option<String>, home: Option<String>) -> (state: State)
    ensures
        state@ == started(resolved(explicit.deep_view(), home.deep_view())),
        state@.well_formed(),
{
    start(resolve_path(explicit, home))
}

/// Starts a run for the user who runs the process.
///
/// With an explicit path the run reads that path. Without one it reads the
/// default path below the home directory, and has failed with
/// [`Failure::HomeDirectoryUnresolved`] where that directory is unknown.
pub fn begin(explicit: Option<String>) -> (state: State)
    ensures
        exists|home: Option<Seq<char>>| state@ == started(resolved(explicit.deep_view(), home)),
        explicit matches Some(given) ==> state@ == (StateView::Reading { path: given@ }),
        state@.well_formed(),
{
    start(config_path(explicit))
}

/// Takes the run from `state` to the state that follows on `event`.
pub fn step(state: State, event: Event) -> (next: State)
    ensures
        next@ == next_state(state@, event@),
        state@.well_formed() ==> next@.well_formed(),
{
    match (state, event) {
        (State::Reading { .. }, Event::FileRead { text: Some(text) }) => {
            match parse_connections(text.as_str()) {
                Ok(entries) => if entries.len() == 0 {
                    State::Failed { failure: Failure::NoConnections }
                } else {
                    State::Prompting { entries }
                },
                Err(failure) => State::Failed { failure },
            }
        },
        (State::Reading { .. }, Event::FileRead { text: None }) => State::Failed { failure: Failure::FileReadError },
        (State::Prompting { entries }, Event::Selected { index: Some(i) }) => if i < entries.len() {
            State::Spawning { entry: entries[i].clone() }
        } else {
            State::Prompting { entries }
        },
        (State::Prompting { .. }, Event::Selected { index: None }) => State::Failed {
            failure: Failure::SelectionAborted,
        },
        (State::Spawning { .. }, Event::Spawned { started }) => if started {
            State::Waiting
        } else {
            State::Failed { failure: Failure::SpawnError }
        },
        (State::Waiting, Event::Exited { waited }) => if waited {
            State::Done
        } else {
            State::Failed { failure: Failure::WaitError }
        },
        (state, _) => state,
    }
}

impl State {
    /// The action that the driver is to perform in this state.
    pub fn pending(&self) -> (action: Action)
        ensures
            action@ == pending_of(self@),
    {
        match self {
            State::Reading { path } => Action::ReadFile { path: path.clone() },
            State::Prompting { entries } => Action::Prompt {
                title: String::from_str("Select a connection"),
                labels: labels(entries),
                preselected: 0,
            },
            State::Spawning { entry } => Action::Launch {
                label: entry.name.clone(),
                program: String::from_str("ssh"),
                argument: entry.connection.clone(),
            },
            State::Waiting => Action::Wait,
            State::Done => Action::Finish,
            State::Failed { failure } => Action::Fail { failure: *failure },
        }
    }

    /// Whether the run has ended, with or without success.
    pub fn is_final(&self) -> (ended: bool)
        ensures
            ended == self@.is_final(),
    {
        match self {
            State::Done => true,
            State::Failed { .. } => true,
            _ => false,
        }
    }

    /// The exit status of the process once the run has ended: `0` after an
    /// SSH session, whatever its own result, and `1` after a failure.
    pub fn exit_code(&self) -> (code: Option<u8>)
        ensures
            code == match self@ {
                StateView::Done => Some(0u8),
                StateView::Failed { .. } => Some(1u8),
                _ => None,
            },
    {
        match self {
            State::Done => Some(0),
            State::Failed { .. } => Some(1),
            _ => None,
        }
    }
}

/// Every state that a step leads to can come up in a run: no prompt is
/// ever over an empty list.
pub proof fn lemma_step_keeps_well_formed(state: StateView, event: EventView)
    requires
        state.well_formed(),
    ensures
        next_state(state, event).well_formed(),
{
}

/// A run that has ended stays as it is, whatever is reported afterwards.
pub proof fn lemma_final_state_stays(state: StateView, events: Seq<EventView>)
    requires
        state.is_final(),
    ensures
        run(state, events) == state,
    decreases events.len(),
{
    if events.len() > 0 {
        lemma_final_state_stays(state, events.drop_first());
    }
}

/// A configuration document of `N >= 1` entries leads to a prompt with
/// exactly `N` labels: the label at each position is the name of the entry
/// at that position of the file. The first label is highlighted.
pub proof fn lemma_prompt_lists_every_entry(path: Seq<char>, text: Seq<char>, items: Seq<JsonTree>)
    ensures
        ({
            &&& json_of(text) == Some(JsonTree::Array(items))
            &&& items.len() >= 1
            &&& forall|i: int| 0 <= i < items.len() ==> (#[trigger] entry_of(items[i])) is Some
        }) ==> {
            let reading = StateView::Reading { path };
            let read = EventView::FileRead { text: Some(text) };
            &&& pending_of(next_state(reading, read)) matches ActionView::Prompt { labels, preselected, .. }
            &&& preselected == 0
            &&& labels.len() == items.len()
            &&& forall|i: int| 0 <= i < items.len() ==> #[trigger] labels[i] == entry_of(items[i])->0.name
        },
{
}

/// Picking position `index` launches the SSH client on the connection of
/// the entry at that position, and confirms that entry's name: the entry
/// is found by position, whatever the names of the others are.
pub proof fn lemma_selection_launches_by_position(entries: Seq<EntryView>, index: int)
    requires
        0 <= index < entries.len(),
    ensures
        pending_of(next_state(StateView::Prompting { entries }, EventView::Selected { index: Some(index) }))
            == (ActionView::Launch {
            label: entries[index].name,
            program: ssh_program(),
            argument: entries[index].connection,
        }),
{
}

/// A configuration with an entry that lacks `name` or `connection` fails
/// with a parse error, and the run never prompts or launches afterwards.
pub proof fn lemma_missing_field_ends_the_run(
    path: Seq<char>,
    text: Seq<char>,
    position: int,
    later: Seq<EventView>,
)
    ensures
        json_of(text) matches Some(tree) && lacks_field(tree, position) ==> {
            let failed = StateView::Failed { failure: Failure::ParseError };
            let read = EventView::FileRead { text: Some(text) };
            &&& parsed(text) == Err::<Seq<EntryView>, Failure>(Failure::ParseError)
            &&& next_state(StateView::Reading { path }, read) == failed
            &&& run(next_state(StateView::Reading { path }, read), later) == failed
        },
{
    if json_of(text) matches Some(tree) && lacks_field(tree, position) {
        lemma_missing_field_is_parse_error(json_of(text)->0, position);
        lemma_final_state_stays(StateView::Failed { failure: Failure::ParseError }, later);
    }
}

/// A file that cannot be read ends the run with a file read error.
pub proof fn lemma_unreadable_file_ends_the_run(path: Seq<char>, later: Seq<EventView>)
    ensures
        ({
            let unread = EventView::FileRead { text: None };
            run(next_state(StateView::Reading { path }, unread), later) == (StateView::Failed {
                failure: Failure::FileReadError,
            })
        }),
{
    lemma_final_state_stays(StateView::Failed { failure: Failure::FileReadError }, later);
}

/// A run with an explicit path reads that path, whatever the home
/// directory is.
pub proof fn lemma_explicit_path_is_read(path: Seq<char>, home: Option<Seq<char>>)
    ensures
        pending_of(started(resolved(Some(path), home))) == (ActionView::ReadFile { path }),
{
}

} // verus!
