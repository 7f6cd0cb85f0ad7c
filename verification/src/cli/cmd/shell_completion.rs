//! The `shell-completion` sub-command's data: for which shell, and
//! under which binary name, completions are generated.  The generator
//! itself lives outside the library.

use vstd::prelude::*;

verus! {

/// The shells completions can be generated for.
#[derive(Clone, Copy, Debug, PartialEq, Eq, Structural)]
pub enum GeneratorChoice {
    Bash,
    Elvish,
    Fish,
    PowerShell,
    Zsh,
}

/// What a `shell-completion` invocation asks for.
#[derive(Clone, Debug)]
pub struct Input {
    /// For which shell to generate completions.
    pub shell: GeneratorChoice,
    /// The binary name the completions are written against.
    pub binary: String,
}

} // verus!
