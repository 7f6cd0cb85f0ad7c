//! The data structures of requests and responses.

use vstd::prelude::*;

verus! {

/// Who may see a project.
#[derive(Clone, Copy, Debug, PartialEq, Eq, Structural)]
pub enum Visibility {
    Public,
    Private,
}

impl Visibility {
    /// The wire word for the visibility.
    pub fn as_string(&self) -> (r: &'static str)
        ensures
            r@ == match *self {
                Visibility::Public => "public"@,
                Visibility::Private => "private"@,
            },
    {
        match self {
            Visibility::Private => "private",
            Visibility::Public => "public",
        }
    }
}

/// What the search service says of itself.
#[derive(Clone, Debug)]
pub struct SearchServiceVersion {
    pub name: String,
    pub version: String,
    pub head_commit: String,
}

/// What the data service says of itself.
#[derive(Clone, Debug)]
pub struct SimpleVersion {
    pub version: String,
}

/// The version information the platform provides.
#[derive(Clone, Debug)]
pub struct VersionInfo {
    pub search: SearchServiceVersion,
    pub data: SimpleVersion,
}

/// The repository list as shown: each entry on its own line behind
/// a dash.
pub open spec fn repo_lines(rs: Seq<Seq<char>>) -> Seq<char>
    decreases rs.len(),
{
    if rs.len() == 0 {
        Seq::empty()
    } else {
        "\n  - "@ + rs[0] + repo_lines(rs.drop_first())
    }
}

proof fn lemma_repo_lines_concat(a: Seq<Seq<char>>, b: Seq<Seq<char>>)
    ensures
        repo_lines(a + b) == repo_lines(a) + repo_lines(b),
    decreases a.len(),
{
    if a.len() == 0 {
        assert(a + b =~= b);
        assert(repo_lines(a) + repo_lines(b) =~= repo_lines(b));
    } else {
        lemma_repo_lines_concat(a.drop_first(), b);
        assert((a + b).drop_first() =~= a.drop_first() + b);
        assert((a + b)[0] == a[0]);
        assert("\n  - "@ + a[0] + (repo_lines(a.drop_first()) + repo_lines(b)) =~= ("\n  - "@
            + a[0] + repo_lines(a.drop_first())) + repo_lines(b));
    }
}

/// What the platform knows of a project.
#[derive(Clone, Debug)]
pub struct ProjectDetails {
    pub id: String,
    pub name: String,
    pub namespace: String,
    pub slug: String,
    pub visibility: Visibility,
    pub etag: Option<String>,
    pub repositories: Vec<String>,
    pub description: Option<String>,
    pub keywords: Vec<String>,
    /// When the project was created, as the platform's timestamp text.
    pub creation_date: String,
}

impl ProjectDetails {
    /// The lines shown for a project: identity, visibility, creation
    /// time, and one line per repository.
    pub fn render(&self) -> (r: String)
        ensures
            r@ == "Id: "@ + self.id@ + "\nNamespace/Slug: "@ + self.namespace@ + "/"@
                + self.slug@ + "\nVisibility: "@ + (match self.visibility {
                Visibility::Public => "public"@,
                Visibility::Private => "private"@,
            }) + "\nCreated At: "@ + self.creation_date@ + "\nRepositories:"@ + repo_lines(
                self.repositories.deep_view(),
            ),
    {
        let mut lines = String::new();
        let n = self.repositories.len();
        let mut i: usize = 0;
        while i < n
            invariant
                i <= n,
                n == self.repositories@.len(),
                lines@ == repo_lines(self.repositories.deep_view().take(i as int)),
            decreases n - i,
        {
            let ghost pre = self.repositories.deep_view().take(i as int);
            proof {
                lemma_repo_lines_concat(pre, seq![self.repositories@[i as int]@]);
                assert(self.repositories.deep_view().take(i + 1) =~= pre + seq![
                    self.repositories@[i as int]@,
                ]);
                assert(seq![self.repositories@[i as int]@].drop_first()
                    =~= Seq::<Seq<char>>::empty());
                assert(repo_lines(Seq::<Seq<char>>::empty()) =~= Seq::<char>::empty());
                assert(repo_lines(seq![self.repositories@[i as int]@]) =~= "\n  - "@
                    + self.repositories@[i as int]@);
            }
            lines.append("\n  - ");
            let repo = &self.repositories[i];
            lines.append(repo.as_str());
            i = i + 1;
        }
        proof {
            assert(self.repositories.deep_view().take(n as int) =~= self.repositories.deep_view());
        }
        let mut s = String::new();
        s.append("Id: ");
        s.append(self.id.as_str());
        s.append("\nNamespace/Slug: ");
        s.append(self.namespace.as_str());
        s.append("/");
        s.append(self.slug.as_str());
        s.append("\nVisibility: ");
        s.append(self.visibility.as_string());
        s.append("\nCreated At: ");
        s.append(self.creation_date.as_str());
        s.append("\nRepositories:");
        s.append(lines.as_str());
        s
    }
}

} // verus!
