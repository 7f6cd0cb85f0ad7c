//! The client-side logic of the Renku HTTP API: request paths, the
//! routing of a project reference to an endpoint, and the reading of
//! a project id out of a platform URL.  The HTTP transport itself
//! lives outside the library.

pub mod auth;
pub mod cache;
pub mod data;
pub mod proxy;

use vstd::prelude::*;

use crate::codec::{expect_lit, find_char, lemma_find_from, sp_lit};
use crate::data::project_id::{ProjectId, ProjectIdView};

verus! {

/// Failures of talking to the platform.
#[derive(Clone, Debug)]
pub enum Error {
    /// A request failed, with the URL it went to.
    Http { url: String, message: String },
    /// The HTTP client could not be built.
    ClientCreate { message: String },
    /// A file could not be opened.
    OpenFile { path: String, message: String },
    /// A response could not be read.
    DeserializeResp { message: String },
    /// A response could not be decoded.
    DeserializeJson { message: String },
    /// A URL could not be read.
    UrlParse,
    /// A URL does not point at a project.
    ProjectUrlParse { reason: String },
    /// The login flow failed.
    Auth { source: auth::AuthError },
    /// The token cache failed.
    Cache { source: cache::Error },
}

/// The path that asks for a project by namespace and slug.
pub fn project_by_slug_path(namespace: &str, slug: &str) -> (r: String)
    ensures
        r@ == "/api/data/namespaces/"@ + namespace@ + "/projects/"@ + slug@,
{
    let mut s = String::new();
    s.append("/api/data/namespaces/");
    s.append(namespace);
    s.append("/projects/");
    s.append(slug);
    s
}

/// The path that asks for a project by id.
pub fn project_by_id_path(id: &str) -> (r: String)
    ensures
        r@ == "/api/data/projects/"@ + id@,
{
    let mut s = String::new();
    s.append("/api/data/projects/");
    s.append(id);
    s
}

/// The path that asks the data service for its version.
pub fn data_version_path() -> (r: String)
    ensures
        r@ == "/ui-server/api/data/version"@,
{
    let mut s = String::new();
    s.append("/ui-server/api/data/version");
    proof {
        assert(s@ =~= "/ui-server/api/data/version"@);
    }
    s
}

/// The path that asks the search service for its version.
pub fn search_version_path() -> (r: String)
    ensures
        r@ == "/ui-server/api/search/version"@,
{
    let mut s = String::new();
    s.append("/ui-server/api/search/version");
    proof {
        assert(s@ =~= "/ui-server/api/search/version"@);
    }
    s
}

/// A character of a project id: the ULID alphabet, which leaves out
/// `I`, `L`, `O` and `U`.
pub open spec fn is_ulid_char(c: char) -> bool {
    ('0' <= c && c <= '9') || ('A' <= c && c <= 'H') || c == 'J' || c == 'K' || c == 'M' || c == 'N'
        || ('P' <= c && c <= 'T') || ('V' <= c && c <= 'Z')
}

/// A 26-character project id stands at `i`: a first character `0`
/// through `7`, then 25 more of the ULID alphabet.
pub open spec fn ulid_at(s: Seq<char>, i: int) -> bool {
    &&& i + 26 <= s.len()
    &&& '0' <= s[i] && s[i] <= '7'
    &&& forall|m: int| i <= m < i + 26 ==> is_ulid_char(#[trigger] s[m])
}

/// The project path prefix stands at `i`.
pub open spec fn proj_prefix_at(s: Seq<char>, i: int) -> bool {
    sp_lit(s, i, "/v2/projects/"@) is Some
}

/// A project-by-id path stands at `i`: the prefix, then an id.
pub open spec fn id_path_at(s: Seq<char>, i: int) -> bool {
    proj_prefix_at(s, i) && ulid_at(s, i + 13)
}

/// A project-by-namespace path stands at `i`: the prefix, then a
/// nonempty namespace up to the next `/`, then a nonempty rest.
pub open spec fn ns_path_at(s: Seq<char>, i: int) -> bool {
    proj_prefix_at(s, i) && (exists|j: int|
        {
            &&& i + 14 <= j
            &&& j + 1 < s.len()
            &&& s[j] == '/'
            &&& forall|m: int| i + 13 <= m < j ==> s[m] != '/'
        })
}

/// Either shape of a project path stands at `i`.
pub open spec fn any_path_at(s: Seq<char>, i: int) -> bool {
    id_path_at(s, i) || ns_path_at(s, i)
}

/// The first position at or after `i` where a project path stands,
/// or the length of `s` where none does.
pub open spec fn path_match_from(s: Seq<char>, i: int) -> int
    recommends
        0 <= i <= s.len(),
    decreases s.len() - i,
{
    if i < 0 || i >= s.len() {
        s.len() as int
    } else if any_path_at(s, i) {
        i
    } else {
        path_match_from(s, i + 1)
    }
}

/// The project id read out of a URL path: at the first place where a
/// project path stands, and only in its by-id shape.
pub open spec fn sp_extract_id(s: Seq<char>) -> Option<Seq<char>> {
    let k = path_match_from(s, 0);
    if k < s.len() && id_path_at(s, k) {
        Some(s.subrange(k + 13, k + 39))
    } else {
        None
    }
}

fn is_ulid_char_exec(c: char) -> (b: bool)
    ensures
        b == is_ulid_char(c),
{
    let u = c as u32;
    (48 <= u && u <= 57) || (65 <= u && u <= 72) || u == 74 || u == 75 || u == 77 || u == 78 || (80
        <= u && u <= 84) || (86 <= u && u <= 90)
}

fn check_id_path(s: &str, n: usize, i: usize) -> (b: bool)
    requires
        n == s@.len(),
        i <= n,
    ensures
        b == id_path_at(s@, i as int),
{
    proof {
        reveal_strlit("/v2/projects/");
    }
    match expect_lit(s, n, i, "/v2/projects/") {
        None => false,
        Some(p) => {
            if n - p < 26 {
                return false;
            }
            let c0 = s.get_char(p);
            if !('0' <= c0 && c0 <= '7') {
                return false;
            }
            let mut m: usize = 0;
            while m < 26
                invariant
                    m <= 26,
                    n == s@.len(),
                    p + 26 <= n,
                    p == i + 13,
                    forall|t: int| p as int <= t < p + m ==> is_ulid_char(#[trigger] s@[t]),
                decreases 26 - m,
            {
                if !is_ulid_char_exec(s.get_char(p + m)) {
                    return false;
                }
                m = m + 1;
            }
            true
        },
    }
}

fn check_ns_path(s: &str, n: usize, i: usize) -> (b: bool)
    requires
        n == s@.len(),
        i <= n,
    ensures
        b == ns_path_at(s@, i as int),
{
    proof {
        reveal_strlit("/v2/projects/");
    }
    match expect_lit(s, n, i, "/v2/projects/") {
        None => false,
        Some(p) => {
            proof {
                lemma_find_from(s@, p as int, '/');
            }
            match find_char(s, n, p, '/') {
                None => {
                    proof {
                        if ns_path_at(s@, i as int) {
                            let j = choose|j: int|
                                {
                                    &&& i + 14 <= j
                                    &&& j + 1 < s@.len()
                                    &&& s@[j] == '/'
                                    &&& forall|m: int| i + 13 <= m < j ==> s@[m] != '/'
                                };
                            assert(s@[j] == '/');
                            assert(false);
                        }
                    }
                    false
                },
                Some(j) => {
                    let ok = j >= p + 1 && j + 1 < n;
                    proof {
                        if ok {
                            assert(ns_path_at(s@, i as int)) by {
                                assert(i + 14 <= j as int && j + 1 < s@.len() && s@[j as int] == '/'
                                    && forall|m: int| i + 13 <= m < j as int ==> s@[m] != '/');
                            }
                        } else {
                            if ns_path_at(s@, i as int) {
                                let j2 = choose|j2: int|
                                    {
                                        &&& i + 14 <= j2
                                        &&& j2 + 1 < s@.len()
                                        &&& s@[j2] == '/'
                                        &&& forall|m: int| i + 13 <= m < j2 ==> s@[m] != '/'
                                    };
                                if j2 < j {
                                    assert(s@[j2] != '/');
                                } else if j < j2 {
                                    assert(s@[j as int] != '/');
                                }
                                assert(false);
                            }
                        }
                    }
                    ok
                },
            }
        },
    }
}

/// Reads the project id out of a URL path, as `sp_extract_id`
/// describes: at the first place where either project-path shape
/// stands.  A path whose first match carries a namespace instead of
/// an id, and a path with no match at all, are told apart in the
/// failure's reason.
pub fn extract_project_id(path: &str) -> (r: Result<String, Error>)
    ensures
        match r {
            Ok(id) => sp_extract_id(path@) == Some(id@),
            Err(e) => sp_extract_id(path@) is None && (e matches Error::ProjectUrlParse { reason }
                && (reason@ == "Url did not match project URL pattern: "@ + path@ || reason@
                == "No project path found in url: "@ + path@)),
        },
{
    let n = path.unicode_len();
    let mut i: usize = 0;
    while i < n
        invariant
            i <= n,
            n == path@.len(),
            path_match_from(path@, 0) == path_match_from(path@, i as int),
        decreases n - i,
    {
        if check_id_path(path, n, i) {
            proof {
                assert(path_match_from(path@, i as int) == i as int);
            }
            let id = path.substring_char(i + 13, i + 39).to_owned();
            return Ok(id);
        }
        if check_ns_path(path, n, i) {
            proof {
                assert(path_match_from(path@, i as int) == i as int);
            }
            let mut reason = String::new();
            reason.append("Url did not match project URL pattern: ");
            reason.append(path);
            return Err(Error::ProjectUrlParse { reason });
        }
        i = i + 1;
    }
    let mut reason = String::new();
    reason.append("No project path found in url: ");
    reason.append(path);
    Err(Error::ProjectUrlParse { reason })
}

/// The access token a client starts with: the one handed in
/// explicitly, else the cached one, else none.
pub fn effective_access_token(explicit: Option<String>, cached: Option<String>) -> (r: Option<
    String,
>)
    ensures
        r == match explicit {
            Some(t) => Some(t),
            None => cached,
        },
{
    match explicit {
        Some(t) => Some(t),
        None => cached,
    }
}

/// Where a project reference is resolved: at an API path of the
/// configured platform, or at the platform a full URL names.
#[derive(Clone, Debug)]
pub enum ProjectRoute {
    /// Ask the configured platform under this path.
    ApiPath(String),
    /// Read the platform and the project out of this URL.
    ByUrl(String),
}

/// Routes a project reference, as the reference's shape says.
pub fn get_project_route(id: &ProjectId) -> (r: ProjectRoute)
    ensures
        match id@ {
            ProjectIdView::NamespaceSlug { namespace, slug } => r matches ProjectRoute::ApiPath(p)
                && p@ == "/api/data/namespaces/"@ + namespace + "/projects/"@ + slug,
            ProjectIdView::Id(i) => r matches ProjectRoute::ApiPath(p) && p@
                == "/api/data/projects/"@ + i,
            ProjectIdView::FullUrl(u) => r matches ProjectRoute::ByUrl(s) && s@ == u,
        },
{
    match id {
        ProjectId::NamespaceSlug { namespace, slug } => ProjectRoute::ApiPath(
            project_by_slug_path(namespace.as_str(), slug.as_str()),
        ),
        ProjectId::Id(i) => ProjectRoute::ApiPath(project_by_id_path(i.as_str())),
        ProjectId::FullUrl(u) => {
            let mut s = String::new();
            s.append(u.as_str());
            proof {
                assert(s@ =~= u@);
            }
            ProjectRoute::ByUrl(s)
        },
    }
}

} // verus!
