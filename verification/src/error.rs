//! The top-level error of a run.

use vstd::prelude::*;

use crate::cli::cmd::CmdError;

verus! {

/// What a whole invocation can fail with.
#[derive(Clone, Debug)]
pub enum Error {
    /// A sub-command failed.
    Cmd { source: CmdError },
}

/// The process exit code an error maps to.
pub fn exit_code(err: &Error) -> (r: i32)
    ensures
        r == 1,
{
    match err {
        Error::Cmd { source: _ } => 1,
    }
}

} // verus!
