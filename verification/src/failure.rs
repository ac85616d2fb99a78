//! The fatal conditions of a run.

use vstd::prelude::*;
use vstd::string::StringExecFns;

verus! {

/// Why a run ended without an SSH session.
///
/// Every condition is fatal: none is retried or recovered from.
#[derive(Clone, Copy, Debug, PartialEq, Eq, Structural)]
pub enum Failure {
    /// No explicit path was given and the home directory is unknown.
    HomeDirectoryUnresolved,
    /// The configuration file is missing, unreadable or not valid text.
    FileReadError,
    /// The configuration text is not a JSON list of entries that each carry
    /// the string fields `name` and `connection`.
    ParseError,
    /// The configuration lists no connection, so there is nothing to pick.
    NoConnections,
    /// The user left the prompt without picking an entry.
    SelectionAborted,
    /// The SSH client could not be started.
    SpawnError,
    /// Waiting for the SSH client failed.
    WaitError,
}

impl Failure {
    /// The message shown to the user for this failure.
    pub open spec fn message_text(self) -> Seq<char> {
        match self {
            Failure::HomeDirectoryUnresolved => "no home directory: pass the configuration file with --file"@,
            Failure::FileReadError => "the configuration file could not be read"@,
            Failure::ParseError => "the configuration file is not a JSON list of {\"name\", \"connection\"} entries"@,
            Failure::NoConnections => "no connections configured"@,
            Failure::SelectionAborted => "no connection selected"@,
            Failure::SpawnError => "failed to start ssh"@,
            Failure::WaitError => "failed to wait for ssh"@,
        }
    }

    /// Renders the failure for the user.
    pub fn message(&self) -> (text: String)
        ensures
            text@ == self.message_text(),
    {
        match self {
            Failure::HomeDirectoryUnresolved => String::from_str("no home directory: pass the configuration file with --file"),
            Failure::FileReadError => String::from_str("the configuration file could not be read"),
            Failure::ParseError => String::from_str("the configuration file is not a JSON list of {\"name\", \"connection\"} entries"),
            Failure::NoConnections => String::from_str("no connections configured"),
            Failure::SelectionAborted => String::from_str("no connection selected"),
            Failure::SpawnError => String::from_str("failed to start ssh"),
            Failure::WaitError => String::from_str("failed to wait for ssh"),
        }
    }
}

} // verus!
