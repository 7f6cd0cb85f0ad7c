//! The options common to every sub-command, and the sub-commands
//! themselves, as plain data.  The argument parser that fills them
//! lives outside the library.

use vstd::prelude::*;

use crate::cli::cmd::{login, project, shell_completion, userdoc, version};

verus! {

/// How results are presented.
#[derive(Clone, Copy, Debug, PartialEq, Eq, Structural)]
pub enum Format {
    Json,
    Default,
}

/// The proxy choice given on the command line: `none`, or a URL.
#[derive(Clone, Debug)]
pub enum ProxySetting {
    /// Ignore the system proxy.
    NoProxy,
    /// Use this proxy.
    Custom { url: String },
}

/// The characters `A` through `Z` taken down to lower case.
pub open spec fn ascii_lower(c: char) -> char {
    if 'A' <= c && c <= 'Z' {
        ((c as nat) + 32) as char
    } else {
        c
    }
}

/// Whether two texts agree up to ASCII case.
pub open spec fn eq_ignore_ascii_case_spec(a: Seq<char>, b: Seq<char>) -> bool {
    a.len() == b.len() && (forall|i: int|
        0 <= i < a.len() ==> ascii_lower(#[trigger] a[i]) == ascii_lower(b[i]))
}

fn ascii_lower_exec(c: char) -> (r: char)
    ensures
        r == ascii_lower(c),
{
    let u = c as u32;
    if 65 <= u && u <= 90 {
        ((u + 32) as u8) as char
    } else {
        c
    }
}

/// Compares two texts without regard to ASCII case.
fn eq_ignore_ascii_case(a: &str, b: &str) -> (r: bool)
    ensures
        r == eq_ignore_ascii_case_spec(a@, b@),
{
    let n = a.unicode_len();
    let m = b.unicode_len();
    if n != m {
        return false;
    }
    let mut i: usize = 0;
    while i < n
        invariant
            i <= n,
            n == a@.len(),
            n == b@.len(),
            forall|t: int| 0 <= t < i as int ==> ascii_lower(#[trigger] a@[t]) == ascii_lower(b@[t]),
        decreases n - i,
    {
        if ascii_lower_exec(a.get_char(i)) != ascii_lower_exec(b.get_char(i)) {
            return false;
        }
        i = i + 1;
    }
    true
}

impl ProxySetting {
    /// Reads the command-line proxy choice: `none` in any case means
    /// no proxy, anything else is taken for a proxy URL.
    pub fn from_str(s: &str) -> (r: ProxySetting)
        ensures
            match r {
                ProxySetting::NoProxy => eq_ignore_ascii_case_spec(s@, "none"@),
                ProxySetting::Custom { url } => !eq_ignore_ascii_case_spec(s@, "none"@) && url@
                    == s@,
            },
    {
        if eq_ignore_ascii_case(s, "none") {
            ProxySetting::NoProxy
        } else {
            ProxySetting::Custom { url: s.to_owned() }
        }
    }
}

/// The options every sub-command takes.
#[derive(Clone, Debug)]
pub struct CommonOpts {
    /// How talkative logging is; grows with each occurrence.
    pub verbose: u8,
    /// How results are presented.
    pub format: Format,
    /// The base URL of the platform, where given.
    pub renku_url: Option<String>,
    /// The proxy choice, where given.
    pub proxy: Option<ProxySetting>,
    /// The user for proxy authentication.
    pub proxy_user: Option<String>,
    /// The password for proxy authentication.
    pub proxy_password: Option<String>,
}

/// The sub-commands of the client.
#[derive(Clone, Debug)]
pub enum SubCommand {
    Version(version::Input),
    ShellCompletion(shell_completion::Input),
    Project(project::Input),
    Login(login::Input),
    UserDoc(userdoc::Input),
}

/// Everything an invocation asks for.
#[derive(Clone, Debug)]
pub struct MainOpts {
    pub common_opts: CommonOpts,
    pub subcmd: SubCommand,
}

} // verus!
