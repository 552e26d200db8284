//! From a parsed command to the file operation that it asks for.

pub mod builtin;

use crate::error::VshError;
use crate::executor::builtin::{action_outcome, execute_builtin, plan, FileAction};
use crate::parser::Command;
use vstd::prelude::*;

verus! {

/// Decides which file operation a command asks for. Carrying it out is the
/// caller's part.
pub fn execute_command(cmd: Command) -> (r: Result<FileAction, VshError>)
    ensures
        action_outcome(r) == plan(cmd@),
{
    execute_builtin(cmd)
}

} // verus!
