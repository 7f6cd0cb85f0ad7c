//! The decisions of the clone orchestrator: deriving a local
//! directory name from each repository URL, deciding per repository
//! whether to clone or to skip an existing directory, recording
//! outcomes, and surfacing the first failure only after every task
//! has settled.  Launching the concurrent tasks and running git is
//! the surrounding binary's job.

use vstd::prelude::*;

use crate::codec::{rfind_from, lemma_rfind_from, rfind_char, expect_lit};
use crate::data::project_id::ProjectId;
use crate::data::simple_message::SimpleMessage;

verus! {

/// What a `project clone` invocation asks for.
#[derive(Clone, Debug)]
pub struct Input {
    /// The project to clone: id, `namespace/slug`, or full URL.
    pub project_ref: ProjectId,
    /// Where to create the project; the working directory by default.
    pub target_dir: Option<String>,
}

impl Input {
    /// The directory the project is created under: the given one, or
    /// `cwd` where none was given.
    pub fn target_dir_or(&self, cwd: &str) -> (r: String)
        ensures
            r@ == match self.target_dir {
                Some(d) => d@,
                None => cwd@,
            },
    {
        match &self.target_dir {
            Some(d) => d.clone(),
            None => {
                let mut s = String::new();
                s.append(cwd);
                s
            },
        }
    }
}

/// Failures of cloning a project.
#[derive(Clone, Debug)]
pub enum Error {
    /// A request to the platform failed.
    HttpClient { message: String },
    /// The result could not be written out.
    WriteResult { message: String },
    /// The project reference could not be read.
    ProjectIdParse,
    /// The working directory is unknown.
    CurrentDir { message: String },
    /// The target directory could not be created.
    CreateDir { message: String },
    /// A repository could not be cloned.
    GitClone { message: String },
    /// A concurrent task failed on the runtime's side.
    TaskJoin { message: String },
    /// The linkage file could not be written.
    RenkuConfig,
    /// A repository URL carries no name to clone under.
    MissingProjectName { repo_url: String },
}

/// The local directory name a repository URL clones into: what
/// follows the last `/`, with one trailing `.git` stripped; a URL
/// without `/` names nothing.
pub open spec fn derive_name_spec(u: Seq<char>) -> Option<Seq<char>> {
    let k = rfind_from(u, u.len() - 1, '/');
    if k < 0 {
        None
    } else {
        let tail = u.subrange(k + 1, u.len() as int);
        if tail.len() >= 4 && tail.subrange(tail.len() - 4, tail.len() as int) == ".git"@ {
            Some(tail.subrange(0, tail.len() - 4))
        } else {
            Some(tail)
        }
    }
}

/// Derives the local directory name for a repository URL, as
/// `derive_name_spec` describes.
pub fn derive_local_name(repo_url: &str) -> (r: Result<String, Error>)
    ensures
        match r {
            Ok(name) => derive_name_spec(repo_url@) == Some(name@),
            Err(e) => derive_name_spec(repo_url@) is None && (e matches Error::MissingProjectName {
                repo_url: ru,
            } && ru@ == repo_url@),
        },
{
    let n = repo_url.unicode_len();
    proof {
        lemma_rfind_from(repo_url@, n - 1, '/');
    }
    match rfind_char(repo_url, n, '/') {
        None => Err(Error::MissingProjectName { repo_url: repo_url.to_owned() }),
        Some(k) => {
            let ghost tail = repo_url@.subrange(k + 1, n as int);
            if n - k > 4 {
                match expect_lit(repo_url, n, n - 4, ".git") {
                    Some(_) => {
                        proof {
                            reveal_strlit(".git");
                            assert(tail.subrange(tail.len() - 4, tail.len() as int)
                                =~= repo_url@.subrange(n - 4, n as int));
                            assert(repo_url@.subrange(k + 1, n - 4) =~= tail.subrange(
                                0,
                                tail.len() - 4,
                            ));
                        }
                        Ok(repo_url.substring_char(k + 1, n - 4).to_owned())
                    },
                    None => {
                        proof {
                            reveal_strlit(".git");
                            assert(tail.subrange(tail.len() - 4, tail.len() as int)
                                =~= repo_url@.subrange(n - 4, n as int));
                        }
                        Ok(repo_url.substring_char(k + 1, n).to_owned())
                    },
                }
            } else {
                proof {
                    reveal_strlit(".git");
                    assert(tail.len() < 4);
                }
                Ok(repo_url.substring_char(k + 1, n).to_owned())
            }
        },
    }
}

/// One repository of the batch: its source, the derived directory
/// name, and the full path it clones into.
#[derive(Clone, Debug)]
pub struct RepositoryCloneTask {
    pub source_url: String,
    pub local_name: String,
    pub target_path: String,
}

/// Builds the task list of a batch: one task per repository URL, each
/// cloning into `target/<name>`; a URL without a name fails alone,
/// without blocking its siblings.
pub fn plan_tasks(repos: &Vec<String>, target: &str) -> (r: Vec<Result<RepositoryCloneTask, Error>>)
    ensures
        r@.len() == repos@.len(),
        forall|i: int|
            0 <= i < repos@.len() ==> match #[trigger] r@[i] {
                Ok(t) => {
                    &&& derive_name_spec(repos@[i]@) == Some(t.local_name@)
                    &&& t.source_url@ == repos@[i]@
                    &&& t.target_path@ == target@ + "/"@ + t.local_name@
                },
                Err(e) => derive_name_spec(repos@[i]@) is None && (e matches
                    Error::MissingProjectName { repo_url } && repo_url@ == repos@[i]@),
            },
{
    let mut out: Vec<Result<RepositoryCloneTask, Error>> = Vec::new();
    let n = repos.len();
    let mut i: usize = 0;
    while i < n
        invariant
            i <= n,
            n == repos@.len(),
            out@.len() == i as int,
            forall|m: int|
                0 <= m < i as int ==> match #[trigger] out@[m] {
                    Ok(t) => {
                        &&& derive_name_spec(repos@[m]@) == Some(t.local_name@)
                        &&& t.source_url@ == repos@[m]@
                        &&& t.target_path@ == target@ + "/"@ + t.local_name@
                    },
                    Err(e) => derive_name_spec(repos@[m]@) is None && (e matches
                        Error::MissingProjectName { repo_url } && repo_url@ == repos@[m]@),
                },
        decreases n - i,
    {
        let u = &repos[i];
        match derive_local_name(u.as_str()) {
            Ok(name) => {
                let path = crate::httpclient::cache::join_path(target, name.as_str());
                out.push(
                    Ok(
                        RepositoryCloneTask {
                            source_url: u.clone(),
                            local_name: name,
                            target_path: path,
                        },
                    ),
                );
            },
            Err(e) => {
                out.push(Err(e));
            },
        }
        i = i + 1;
    }
    out
}

/// What is to happen to one repository.
#[derive(Clone, Copy, Debug, PartialEq, Eq, Structural)]
pub enum TaskAction {
    /// The directory already exists: leave it untouched.
    SkipExisting,
    /// Clone into the fresh directory.
    RunClone,
}

/// Decides one task: an existing directory is skipped, a fresh one
/// is cloned into.
pub fn decide_action(target_exists: bool) -> (a: TaskAction)
    ensures
        a == if target_exists {
            TaskAction::SkipExisting
        } else {
            TaskAction::RunClone
        },
{
    if target_exists {
        TaskAction::SkipExisting
    } else {
        TaskAction::RunClone
    }
}

/// Decides every task of a batch at once.  Each entry depends on its
/// own directory alone: one existing directory never changes what
/// happens to any sibling.
pub fn decide_all(exists: &Vec<bool>) -> (r: Vec<TaskAction>)
    ensures
        r@.len() == exists@.len(),
        forall|i: int|
            0 <= i < exists@.len() ==> #[trigger] r@[i] == if exists@[i] {
                TaskAction::SkipExisting
            } else {
                TaskAction::RunClone
            },
{
    let mut out: Vec<TaskAction> = Vec::new();
    let n = exists.len();
    let mut i: usize = 0;
    while i < n
        invariant
            i <= n,
            n == exists@.len(),
            out@.len() == i as int,
            forall|m: int|
                0 <= m < i as int ==> #[trigger] out@[m] == if exists@[m] {
                    TaskAction::SkipExisting
                } else {
                    TaskAction::RunClone
                },
        decreases n - i,
    {
        out.push(decide_action(exists[i]));
        i = i + 1;
    }
    out
}

/// How one repository task ended.
#[derive(Clone, Debug, PartialEq)]
pub enum CloneOutcome {
    /// The directory existed already; nothing was touched.
    Skipped,
    /// The repository was cloned.
    Cloned,
    /// The clone failed, with the reason.
    Failed(String),
}

/// Records one task's end: an existing directory was skipped; an
/// attempted clone ended as git said.
pub fn outcome_of(target_exists: bool, clone_error: Option<String>) -> (o: CloneOutcome)
    ensures
        target_exists ==> o is Skipped,
        !target_exists && clone_error is None ==> o is Cloned,
        !target_exists && clone_error is Some ==> (o matches CloneOutcome::Failed(m) && m@
            == clone_error->0@),
{
    if target_exists {
        CloneOutcome::Skipped
    } else {
        match clone_error {
            None => CloneOutcome::Cloned,
            Some(m) => CloneOutcome::Failed(m),
        }
    }
}

/// The first failure of a settled batch, if any: the batch surfaces
/// it only after every task has reached an outcome, and the outcomes
/// of the other tasks stand regardless.
pub fn first_failure(outcomes: &Vec<CloneOutcome>) -> (r: Option<usize>)
    ensures
        match r {
            Some(i) => i < outcomes@.len() && outcomes@[i as int] is Failed && forall|m: int|
                0 <= m < i as int ==> !(#[trigger] outcomes@[m] is Failed),
            None => forall|m: int| 0 <= m < outcomes@.len() ==> !(#[trigger] outcomes@[m] is Failed),
        },
{
    let n = outcomes.len();
    let mut i: usize = 0;
    while i < n
        invariant
            i <= n,
            n == outcomes@.len(),
            forall|m: int| 0 <= m < i as int ==> !(#[trigger] outcomes@[m] is Failed),
        decreases n - i,
    {
        match &outcomes[i] {
            CloneOutcome::Failed(_) => {
                return Some(i);
            },
            _ => (),
        }
        i = i + 1;
    }
    None
}

/// Distinct local names clone into distinct directories under one
/// target: the batch writes one subdirectory per distinct name.
pub proof fn lemma_distinct_names_distinct_paths(target: Seq<char>, a: Seq<char>, b: Seq<char>)
    requires
        a != b,
    ensures
        target + "/"@ + a != target + "/"@ + b,
{
    reveal_strlit("/");
    let pa = target + "/"@ + a;
    let pb = target + "/"@ + b;
    if pa == pb {
        assert(pa.len() == pb.len());
        assert(pa.len() == target.len() + "/"@.len() + a.len());
        assert(pb.len() == target.len() + "/"@.len() + b.len());
        assert(a.len() == b.len());
        assert(a =~= b) by {
            assert forall|m: int| 0 <= m < a.len() implies a[m] == b[m] by {
                assert(pa[target.len() + "/"@.len() + m] == a[m]);
                assert(pb[target.len() + "/"@.len() + m] == b[m]);
            }
        }
    }
}

/// The notice for a repository whose directory already exists.
pub fn skip_message(name: &str) -> (r: SimpleMessage)
    ensures
        r.message@ == "The repository "@ + name@ + " already exists"@,
{
    let mut s = String::new();
    s.append("The repository ");
    s.append(name);
    s.append(" already exists");
    SimpleMessage { message: s }
}

/// The notice for a finished clone.
pub fn cloned_message(repo_url: &str, path: &str) -> (r: SimpleMessage)
    ensures
        r.message@ == "Cloned: "@ + repo_url@ + " to "@ + path@,
{
    let mut s = String::new();
    s.append("Cloned: ");
    s.append(repo_url);
    s.append(" to ");
    s.append(path);
    SimpleMessage { message: s }
}

/// The notice shown before a batch starts.
pub fn cloning_message(slug: &str, id: &str, target: &str) -> (r: SimpleMessage)
    ensures
        r.message@ == "Cloning "@ + slug@ + " ("@ + id@ + ") into "@ + target@ + "..."@,
{
    let mut s = String::new();
    s.append("Cloning ");
    s.append(slug);
    s.append(" (");
    s.append(id);
    s.append(") into ");
    s.append(target);
    s.append("...");
    SimpleMessage { message: s }
}

/// Where the linkage descriptor is written inside a fresh clone.
pub fn linkage_path(target: &str) -> (r: String)
    ensures
        r@ == target@ + "/.renku/config.toml"@,
{
    let mut s = String::new();
    s.append(target);
    s.append("/.renku/config.toml");
    s
}

} // verus!
