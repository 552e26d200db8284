//! What the interpreter asks of the machine it runs on: the user's name,
//! the host's name and the home directory. Nothing is known of the answers
//! beforehand; the functions that use them are verified for every answer.

use vstd::prelude::*;

verus! {

/// Calls `dirs::home_dir`, which reads the user's home directory from the
/// environment or the user database, and gives the path as text. Nothing
/// is promised of the result.
#[verifier::external_body]
pub(crate) fn home_dir() -> Option<String> {
    match dirs::home_dir() {
        Some(path) => Some(path.to_string_lossy().into_owned()),
        None => None,
    }
}

/// Calls `whoami::username`, the name of the user who runs the program.
/// Nothing is promised of the result.
#[verifier::external_body]
pub(crate) fn username() -> String {
    whoami::username()
}

/// Calls `whoami::fallible::hostname`, the name of the machine, and gives
/// `None` where it reports an error. Nothing is promised of the result.
#[verifier::external_body]
pub(crate) fn hostname() -> Option<String> {
    match whoami::fallible::hostname() {
        Ok(name) => Some(name),
        Err(_) => None,
    }
}

} // verus!
