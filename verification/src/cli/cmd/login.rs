//! The `login` sub-command's decisions: which of the two phases of
//! the device flow an invocation performs.

use vstd::prelude::*;

verus! {

/// What a `login` invocation asks for.
#[derive(Clone, Debug)]
pub struct Input {
    /// Only print the user code information; do not poll.
    pub user_code_only: bool,
    /// Continue polling from a stored phase-one result in this file.
    pub continue_from: Option<String>,
}

/// Which part of the login runs.
#[derive(Clone, Debug)]
pub enum Steps {
    /// Phase one alone: obtain and show the user code.
    UserCode,
    /// Phase two alone, resuming from this stored session.
    Continue(String),
    /// Both phases in one run.
    Complete,
}

impl Input {
    /// Which part of the login the flags ask for: a stored session
    /// wins, then the user-code-only flag, else the complete flow.
    pub fn get_steps(&self) -> (r: Steps)
        ensures
            match self.continue_from {
                Some(p) => r matches Steps::Continue(q) && q@ == p@,
                None => r == if self.user_code_only {
                    Steps::UserCode
                } else {
                    Steps::Complete
                },
            },
    {
        match &self.continue_from {
            Some(p) => Steps::Continue(p.clone()),
            None => {
                if self.user_code_only {
                    Steps::UserCode
                } else {
                    Steps::Complete
                }
            },
        }
    }
}

/// Failures of the `login` sub-command.
#[derive(Clone, Debug)]
pub enum Error {
    /// A request to the platform failed.
    HttpClient { message: String },
    /// The result could not be written out.
    WriteResult { message: String },
    /// A stored phase-one result could not be read.
    FileRead { file: String, message: String },
    /// A stored phase-one result could not be decoded.
    JsonDecode { message: String },
}

} // verus!
