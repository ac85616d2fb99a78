//! Where the configuration file lies.
//!
//! A path that the user names is used as it stands. Without one the file is
//! `.ssh/sshs.json` below the user's home directory. Whether a file exists
//! at the path is found out only when it is read.

use crate::failure::Failure;
use vstd::prelude::*;
use vstd::string::StringExecFns;

verus! {

/// The default configuration path for a home directory:
/// `<home>/.ssh/sshs.json`.
pub open spec fn default_path_of(home: Seq<char>) -> Seq<char> {
    home + "/.ssh/sshs.json"@
}

/// The path that is read: the explicit one where there is one, else the
/// default below the home directory, and a failure where neither is known.
pub open spec fn resolved(explicit: Option<Seq<char>>, home: Option<Seq<char>>) -> Result<Seq<char>, Failure> {
    match explicit {
        Some(path) => Ok(path),
        None => match home {
            Some(directory) => Ok(default_path_of(directory)),
            None => Err(Failure::HomeDirectoryUnresolved),
        },
    }
}

/// Whether `outcome` is the path or the failure that `expected` names.
pub open spec fn gives(outcome: Result<String, Failure>, expected: Result<Seq<char>, Failure>) -> bool {
    match expected {
        Ok(path) => outcome matches Ok(chosen) && chosen@ == path,
        Err(failure) => outcome == Err::<String, Failure>(failure),
    }
}

/// The default configuration path below the home directory `home`.
pub fn default_path(home: &str) -> (path: String)
    ensures
        path@ == default_path_of(home@),
{
    let mut path = String::from_str(home);
    path.append("/.ssh/sshs.json");
    path
}

/// Chooses the configuration path from an explicit path and a home
/// directory, either of which may be missing.
///
/// An explicit path is returned unchanged, whatever the home directory is.
/// Without it the default path below `home` is returned. Without both the
/// outcome is [`Failure::HomeDirectoryUnresolved`].
pub fn resolve_path(explicit: Option<String>, home: Option<String>) -> (outcome: Result<String, Failure>)
    ensures
        gives(outcome, resolved(explicit.deep_view(), home.deep_view())),
{
    match explicit {
        Some(path) => Ok(path),
        None => match home {
            Some(directory) => Ok(default_path(directory.as_str())),
            None => Err(Failure::HomeDirectoryUnresolved),
        },
    }
}

/// Calls `home::home_dir` and hands the directory out as text.
///
/// Trusted, with nothing promised: the answer depends on the environment of
/// the process. A directory whose name is not valid Unicode counts as
/// unknown.
#[verifier::external_body]
fn home_directory() -> Option<String> {
    home::home_dir().and_then(|directory| directory.into_os_string().into_string().ok())
}

/// The default configuration path of the user who runs the process.
///
/// The outcome is what [`resolve_path`] gives without an explicit path for
/// the home directory that the environment names, or for none where the
/// environment names none: the default path below that directory, or
/// [`Failure::HomeDirectoryUnresolved`].
pub fn default_sshs_path() -> (outcome: Result<String, Failure>)
    ensures
        exists|home: Option<Seq<char>>| gives(outcome, resolved(None, home)),
{
    resolve_path(None, home_directory())
}

/// The configuration path for a run: the explicit path where one was given,
/// else the default path of the user who runs the process.
///
/// The outcome is what [`resolve_path`] gives for the explicit path and the
/// home directory that the environment names. The environment is asked only
/// where no explicit path was given.
pub fn config_path(explicit: Option<String>) -> (outcome: Result<String, Failure>)
    ensures
        exists|home: Option<Seq<char>>| gives(outcome, resolved(explicit.deep_view(), home)),
        explicit matches Some(given) ==> outcome matches Ok(path) && path@ == given@,
{
    match explicit {
        Some(path) => {
            let outcome = Ok(path);
            assert(gives(outcome, resolved(explicit.deep_view(), None)));
            outcome
        },
        None => default_sshs_path(),
    }
}

/// An explicit path takes precedence over the default: it is chosen
/// whatever the home directory is, known or not.
pub proof fn lemma_explicit_path_takes_precedence(path: Seq<char>, home: Option<Seq<char>>)
    ensures
        resolved(Some(path), home) == Ok::<Seq<char>, Failure>(path),
{
}

} // verus!
