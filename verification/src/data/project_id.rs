//! How a project is referred to on the command line: by id, by
//! `namespace/slug`, or by its full URL.

use vstd::prelude::*;

use crate::codec::{find_from, lemma_find_from, find_char, str_starts_with};
use crate::data::renku_url::{url_parsed, RenkuUrl};

verus! {

/// A reference to a project.
#[derive(Clone, Debug, PartialEq)]
pub enum ProjectId {
    NamespaceSlug { namespace: String, slug: String },
    Id(String),
    FullUrl(RenkuUrl),
}

/// A project reference, as mathematical values.
pub enum ProjectIdView {
    NamespaceSlug { namespace: Seq<char>, slug: Seq<char> },
    Id(Seq<char>),
    FullUrl(Seq<char>),
}

impl View for ProjectId {
    type V = ProjectIdView;

    open spec fn view(&self) -> ProjectIdView {
        match self {
            ProjectId::NamespaceSlug { namespace, slug } => ProjectIdView::NamespaceSlug {
                namespace: namespace@,
                slug: slug@,
            },
            ProjectId::Id(s) => ProjectIdView::Id(s@),
            ProjectId::FullUrl(u) => ProjectIdView::FullUrl(u@),
        }
    }
}

/// The reference could not be read.
#[derive(Clone, Copy, Debug, PartialEq, Eq, Structural)]
pub enum ProjectIdParseError {
    /// The text looked like a URL and did not parse as one.
    UrlParse,
}

/// Whether the text is taken for a URL: it opens with `http`.
pub open spec fn looks_like_url(s: Seq<char>) -> bool {
    s.len() >= 4 && s.subrange(0, 4) == "http"@
}

/// How a textual reference is read: text opening with `http` is a
/// URL; text with a `/` splits at the first one into namespace and
/// slug; everything else is an id.
pub open spec fn sp_project_id(s: Seq<char>) -> Option<ProjectIdView> {
    if looks_like_url(s) {
        match url_parsed(s) {
            Some(u) => Some(ProjectIdView::FullUrl(u)),
            None => None,
        }
    } else {
        let j = find_from(s, 0, '/');
        if j < s.len() {
            Some(
                ProjectIdView::NamespaceSlug {
                    namespace: s.subrange(0, j),
                    slug: s.subrange(j + 1, s.len() as int),
                },
            )
        } else {
            Some(ProjectIdView::Id(s))
        }
    }
}

impl ProjectId {
    /// Reads a textual project reference, as `sp_project_id`
    /// describes.
    pub fn parse(s: &str) -> (r: Result<ProjectId, ProjectIdParseError>)
        ensures
            match r {
                Ok(id) => sp_project_id(s@) == Some(id@),
                Err(_) => sp_project_id(s@) is None,
            },
    {
        let n = s.unicode_len();
        if str_starts_with(s, n, "http") {
            proof {
                reveal_strlit("http");
            }
            match RenkuUrl::parse(s) {
                Ok(u) => Ok(ProjectId::FullUrl(u)),
                Err(_) => Err(ProjectIdParseError::UrlParse),
            }
        } else {
            proof {
                reveal_strlit("http");
                lemma_find_from(s@, 0, '/');
            }
            match find_char(s, n, 0, '/') {
                Some(j) => {
                    let namespace = s.substring_char(0, j).to_owned();
                    let slug = s.substring_char(j + 1, n).to_owned();
                    Ok(ProjectId::NamespaceSlug { namespace, slug })
                },
                None => Ok(ProjectId::Id(s.to_owned())),
            }
        }
    }

    /// The reference as text: `namespace/slug`, the id, or the URL.
    pub fn as_string(&self) -> (r: String)
        ensures
            r@ == match self@ {
                ProjectIdView::NamespaceSlug { namespace, slug } => namespace + "/"@ + slug,
                ProjectIdView::Id(s) => s,
                ProjectIdView::FullUrl(u) => u,
            },
    {
        match self {
            ProjectId::NamespaceSlug { namespace, slug } => {
                let mut s = String::new();
                s.append(namespace.as_str());
                s.append("/");
                s.append(slug.as_str());
                s
            },
            ProjectId::Id(id) => id.clone(),
            ProjectId::FullUrl(u) => {
                let mut s = String::new();
                s.append(u.as_str());
                proof {
                    assert(s@ =~= u@);
                }
                s
            },
        }
    }
}

} // verus!
