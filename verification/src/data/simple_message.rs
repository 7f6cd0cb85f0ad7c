//! A plain message for the user.

use vstd::prelude::*;

verus! {

/// A single line of text addressed to the user.
#[derive(Clone, Debug)]
pub struct SimpleMessage {
    pub message: String,
}

impl SimpleMessage {
    /// The message's text.
    pub fn render(&self) -> (r: String)
        ensures
            r@ == self.message@,
    {
        self.message.clone()
    }
}

} // verus!
