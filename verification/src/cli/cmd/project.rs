//! The `project` sub-command.

pub mod clone;

use vstd::prelude::*;

verus! {

/// Failures of the `project` sub-command.
#[derive(Clone, Debug)]
pub enum Error {
    /// Cloning the project failed.
    Clone { source: clone::Error },
}

/// What the `project` sub-command does.
#[derive(Clone, Debug)]
pub enum ProjectCommand {
    Clone(clone::Input),
}

/// What a `project` invocation asks for.
#[derive(Clone, Debug)]
pub struct Input {
    pub subcmd: ProjectCommand,
}

} // verus!
