//! The command-line surface: the data each sub-command works on and
//! the decisions each makes.  Argument parsing and terminal output
//! live outside the library.

pub mod cmd;
pub mod opts;

use vstd::prelude::*;

use crate::codec::min_usize;

verus! {

/// What this build of the client knows of itself.
#[derive(Clone, Debug)]
pub struct BuildInfo {
    pub build_date: &'static str,
    pub build_version: &'static str,
    pub git_commit: &'static str,
    pub rustc_host_triple: &'static str,
    pub rustc_llvm_version: &'static str,
    pub rustc_version: &'static str,
    pub cargo_target_triple: &'static str,
}

impl Default for BuildInfo {
    /// A build without recorded build-time facts.
    fn default() -> (r: BuildInfo)
        ensures
            r.build_date@ == "unknown"@,
            r.build_version@ == "0.1.0"@,
            r.git_commit@ == "unreleased"@,
            r.rustc_host_triple@ == "unknown"@,
            r.rustc_llvm_version@ == "unknown"@,
            r.rustc_version@ == "unknown"@,
            r.cargo_target_triple@ == "unknown"@,
    {
        BuildInfo {
            build_date: "unknown",
            build_version: "0.1.0",
            git_commit: "unreleased",
            rustc_host_triple: "unknown",
            rustc_llvm_version: "unknown",
            rustc_version: "unknown",
            cargo_target_triple: "unknown",
        }
    }
}

impl BuildInfo {
    /// What `render` shows: built when, which version, and the first
    /// eight characters of the commit.
    pub open spec fn render_spec(&self) -> Seq<char> {
        "  Built at: "@ + self.build_date@ + "\n  Version: "@ + self.build_version@
            + "\n  Sha: "@ + self.git_commit@.subrange(
            0,
            if self.git_commit@.len() < 8 {
                self.git_commit@.len() as int
            } else {
                8
            },
        )
    }

    /// The lines shown for the client's own version.
    pub fn render(&self) -> (r: String)
        ensures
            r@ == self.render_spec(),
    {
        let n = self.git_commit.unicode_len();
        let k = min_usize(n, 8);
        let mut s = String::new();
        s.append("  Built at: ");
        s.append(self.build_date);
        s.append("\n  Version: ");
        s.append(self.build_version);
        s.append("\n  Sha: ");
        s.append(self.git_commit.substring_char(0, k));
        s
    }
}

} // verus!
