//! The `userdoc` sub-command's decisions: which fenced code blocks
//! of a markdown document run against the client, and how a block's
//! command line is taken apart.  Reading the markdown tree, running
//! the command and writing files happen outside the library.

use vstd::prelude::*;

use crate::codec::{
    is_space, skip_token, skip_token_exec, skip_ws, skip_ws_exec, lemma_skip_bounds, str_eq,
};

verus! {

/// What a `userdoc` invocation asks for.
#[derive(Clone, Debug)]
pub struct Input {
    /// The markdown files, or directories to traverse, to process.
    pub files: Vec<String>,
    /// Append every output into this single file.
    pub output_file: Option<String>,
    /// Write one output file per input under this directory.
    pub output_dir: Option<String>,
    /// The binary to run the snippets with; this one by default.
    pub renku_cli: Option<String>,
    /// Silently overwrite existing files.
    pub overwrite: bool,
    /// The marker put on inserted result blocks.
    pub result_marker: String,
    /// The file-name filter used when traversing directories.
    pub filter_regex: String,
}

/// Where the processed documents go.
#[derive(Clone, Debug)]
pub enum OutputOption {
    OutFile(String),
    OutDir(String),
    Stdout,
}

impl Input {
    /// Where output goes: the single file, else the directory, else
    /// standard output.
    pub fn get_output(&self) -> (r: OutputOption)
        ensures
            match self.output_file {
                Some(f) => r matches OutputOption::OutFile(g) && g@ == f@,
                None => match self.output_dir {
                    Some(d) => r matches OutputOption::OutDir(e) && e@ == d@,
                    None => r is Stdout,
                },
            },
    {
        match &self.output_file {
            Some(f) => OutputOption::OutFile(f.clone()),
            None => match &self.output_dir {
                Some(d) => OutputOption::OutDir(d.clone()),
                None => OutputOption::Stdout,
            },
        }
    }
}

/// How a marked code block is treated.
#[derive(Clone, Copy, Debug, PartialEq, Eq, Structural)]
pub enum FenceModifier {
    /// Run the block and insert its output below it.
    Default,
    /// Run the block and drop its output.
    Silent,
}

/// The modifier a fence word names, if any.
pub open spec fn modifier_of(t: Seq<char>) -> Option<FenceModifier> {
    if t == "renku-cli"@ || t == "rnk"@ {
        Some(FenceModifier::Default)
    } else if t == "renku-cli:silent"@ || t == "rnk:silent"@ {
        Some(FenceModifier::Silent)
    } else {
        None
    }
}

impl FenceModifier {
    /// Reads a fence word, as `modifier_of` describes; any other
    /// word is refused with a message naming it.
    pub fn from_str(s: &str) -> (r: Result<FenceModifier, String>)
        ensures
            match r {
                Ok(m) => modifier_of(s@) == Some(m),
                Err(e) => modifier_of(s@) is None && e@ == "Invalid modifier: "@ + s@,
            },
    {
        if str_eq(s, "renku-cli") || str_eq(s, "rnk") {
            Ok(FenceModifier::Default)
        } else if str_eq(s, "renku-cli:silent") || str_eq(s, "rnk:silent") {
            Ok(FenceModifier::Silent)
        } else {
            let mut e = String::new();
            e.append("Invalid modifier: ");
            e.append(s);
            Err(e)
        }
    }
}

/// The modifier of a fence info line: its second whitespace-separated
/// word, where that word names one.  The first word is the language.
pub open spec fn sp_fence_info(s: Seq<char>) -> Option<FenceModifier> {
    let t1s = skip_ws(s, 0);
    if t1s >= s.len() {
        None
    } else {
        let t1e = skip_token(s, t1s);
        let t2s = skip_ws(s, t1e);
        if t2s >= s.len() {
            None
        } else {
            let t2e = skip_token(s, t2s);
            modifier_of(s.subrange(t2s, t2e))
        }
    }
}

/// Reads the modifier out of a fence info line, as `sp_fence_info`
/// describes.
pub fn parse_fence_info(info: &str) -> (r: Option<FenceModifier>)
    ensures
        r == sp_fence_info(info@),
{
    let n = info.unicode_len();
    let t1s = skip_ws_exec(info, n, 0);
    if t1s >= n {
        return None;
    }
    let t1e = skip_token_exec(info, n, t1s);
    let t2s = skip_ws_exec(info, n, t1e);
    if t2s >= n {
        return None;
    }
    let t2e = skip_token_exec(info, n, t2s);
    let word = info.substring_char(t2s, t2e);
    match FenceModifier::from_str(word) {
        Ok(m) => Some(m),
        Err(_) => None,
    }
}

/// The whitespace-separated words of a command line, from `i` on.
pub open spec fn sp_words(s: Seq<char>, i: int) -> Seq<Seq<char>>
    recommends
        0 <= i <= s.len(),
    decreases s.len() - i,
    via sp_words_dec
{
    let a = skip_ws(s, i);
    if a >= s.len() {
        Seq::empty()
    } else {
        let b = skip_token(s, a);
        seq![s.subrange(a, b)] + sp_words(s, b)
    }
}

#[via_fn]
proof fn sp_words_dec(s: Seq<char>, i: int) {
    if 0 <= i <= s.len() {
        lemma_skip_bounds(s, i);
        let a = skip_ws(s, i);
        if a < s.len() {
            assert(!is_space(s[a]));
            assert(skip_token(s, a) == skip_token(s, a + 1));
            lemma_skip_bounds(s, a + 1);
        }
    }
}

/// Takes a snippet's command line apart: its words after the first,
/// which names the binary and is replaced by the configured one.
pub fn split_command_args(line: &str) -> (r: Vec<String>)
    ensures
        r.deep_view() == if sp_words(line@, 0).len() == 0 {
            Seq::<Seq<char>>::empty()
        } else {
            sp_words(line@, 0).drop_first()
        },
{
    let n = line.unicode_len();
    let mut out: Vec<String> = Vec::new();
    let first = skip_ws_exec(line, n, 0);
    if first >= n {
        proof {
            assert(out.deep_view() =~= Seq::<Seq<char>>::empty());
        }
        return out;
    }
    let mut k = skip_token_exec(line, n, first);
    proof {
        assert(sp_words(line@, 0) == seq![line@.subrange(first as int, k as int)] + sp_words(
            line@,
            k as int,
        ));
        assert(sp_words(line@, 0).drop_first() =~= sp_words(line@, k as int));
    }
    let mut a = skip_ws_exec(line, n, k);
    while a < n
        invariant
            k <= n,
            n == line@.len(),
            a as int == skip_ws(line@, k as int),
            k <= a <= n,
            sp_words(line@, 0).len() >= 1,
            sp_words(line@, 0).drop_first() =~= out.deep_view() + sp_words(line@, k as int),
        decreases n - k,
    {
        proof {
            lemma_skip_bounds(line@, k as int);
            assert(!is_space(line@[a as int]));
            assert(skip_token(line@, a as int) == skip_token(line@, a as int + 1));
            lemma_skip_bounds(line@, a as int + 1);
        }
        let b = skip_token_exec(line, n, a);
        proof {
            assert(b > a);
            assert(sp_words(line@, k as int) == seq![line@.subrange(a as int, b as int)]
                + sp_words(line@, b as int));
        }
        let w = line.substring_char(a, b).to_owned();
        out.push(w);
        proof {
            assert(sp_words(line@, 0).drop_first() =~= out.deep_view() + sp_words(
                line@,
                b as int,
            ));
            assert(b > a);
        }
        k = b;
        a = skip_ws_exec(line, n, k);
    }
    proof {
        assert(sp_words(line@, k as int) =~= Seq::<Seq<char>>::empty());
        assert(sp_words(line@, 0).drop_first() =~= out.deep_view());
    }
    out
}

/// Failures of the `userdoc` sub-command.
#[derive(Clone, Debug)]
pub enum Error {
    /// The result could not be written out.
    WriteResult { message: String },
    /// The client binary could not be found.
    GetBinary { message: String },
    /// A file could not be read.
    ReadFile { path: String, message: String },
    /// A directory could not be listed.
    ListDir { message: String },
    /// A directory could not be created.
    CreateDir { message: String },
    /// A file could not be written.
    WriteFile { message: String },
    /// The document could not be written back as markdown.
    CommonMarkFormat { message: String },
    /// Command output was not text.
    Utf8Decode { message: String },
    /// The client could not be run.
    ExecuteCli { message: String },
    /// The client ran and failed.
    CliResult { status: i32, stderr: String },
    /// The output file exists and overwriting is off.
    ExistingOutput { file: String },
    /// An output path did not lie under the output directory.
    PathPrefix,
}

} // verus!
