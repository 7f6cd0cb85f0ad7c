//! The project linkage file: the TOML document written into a fresh
//! clone's `.renku/config.toml`, binding the working copy back to its
//! project and platform instance.  The file system is the surrounding
//! binary's job; the text and its exact format are decided here.

use vstd::prelude::*;

use crate::codec::{
    dec_of, esc, sp_lit, sp_num, sp_str, expect_lit, parse_num, parse_string, u64_to_dec,
    escape_onto, lemma_subrange_extend, lemma_parse_dec, lemma_parse_str,
};
use crate::data::renku_url::RenkuUrl;

verus! {

/// What identifies the project: its id, namespace and slug.
#[derive(Clone, Debug, PartialEq)]
pub struct ProjectInfo {
    pub id: String,
    pub namespace: String,
    pub slug: String,
}

/// The linkage descriptor: a format version, the platform base URL,
/// and the project's identity.
#[derive(Clone, Debug, PartialEq)]
pub struct RenkuProjectConfig {
    /// The version of this config file.
    version: u16,
    /// The base url to the renku platform.
    pub renku_url: RenkuUrl,
    /// Information about the project.
    pub project: ProjectInfo,
}

/// The descriptor's fields, as mathematical values.
pub struct ConfigView {
    pub version: u16,
    pub renku_url: Seq<char>,
    pub id: Seq<char>,
    pub namespace: Seq<char>,
    pub slug: Seq<char>,
}

impl View for RenkuProjectConfig {
    type V = ConfigView;

    closed spec fn view(&self) -> ConfigView {
        ConfigView {
            version: self.version,
            renku_url: self.renku_url@,
            id: self.project.id@,
            namespace: self.project.namespace@,
            slug: self.project.slug@,
        }
    }
}

/// The current version of the linkage format.
pub const CONFIG_VERSION: u16 = 1;

/// The document a descriptor is stored under: a `version` line, a
/// `renku_url` line, and a `[project]` table with `id`, `namespace`
/// and `slug`.
pub open spec fn config_toml(v: ConfigView) -> Seq<char> {
    "version = "@ + dec_of(v.version as nat) + "\nrenku_url = \""@ + esc(v.renku_url)
        + "\"\n\n[project]\nid = \""@ + esc(v.id) + "\"\nnamespace = \""@ + esc(v.namespace)
        + "\"\nslug = \""@ + esc(v.slug) + "\"\n"@
}

/// Reads a whole linkage document; the text must carry nothing else.
pub open spec fn sp_config(s: Seq<char>) -> Option<ConfigView> {
    match sp_lit(s, 0, "version = "@) {
        None => None,
        Some(i1) => match sp_num(s, i1) {
            None => None,
            Some((version, i2)) => if version > u16::MAX {
                None
            } else {
                match sp_lit(s, i2, "\nrenku_url = \""@) {
                    None => None,
                    Some(i3) => match sp_str(s, i3) {
                        None => None,
                        Some((renku_url, i4)) => match sp_lit(s, i4, "\n\n[project]\nid = \""@) {
                            None => None,
                            Some(i5) => match sp_str(s, i5) {
                                None => None,
                                Some((id, i6)) => match sp_lit(s, i6, "\nnamespace = \""@) {
                                    None => None,
                                    Some(i7) => match sp_str(s, i7) {
                                        None => None,
                                        Some((namespace, i8)) => match sp_lit(
                                            s,
                                            i8,
                                            "\nslug = \""@,
                                        ) {
                                            None => None,
                                            Some(i9) => match sp_str(s, i9) {
                                                None => None,
                                                Some((slug, i10)) => match sp_lit(s, i10, "\n"@) {
                                                    None => None,
                                                    Some(i11) => if i11 == s.len() {
                                                        Some(
                                                            ConfigView {
                                                                version: version as u16,
                                                                renku_url,
                                                                id,
                                                                namespace,
                                                                slug,
                                                            },
                                                        )
                                                    } else {
                                                        None
                                                    },
                                                },
                                            },
                                        },
                                    },
                                },
                            },
                        },
                    },
                }
            },
        },
    }
}

/// Failures of reading or writing the linkage file.
#[derive(Clone, Debug, PartialEq, Eq, Structural)]
pub enum ProjectConfigError {
    /// The file could not be read.
    ReadFile,
    /// The file could not be written.
    WriteFile,
    /// The file's content is not a linkage document.
    ParseFile,
}

impl RenkuProjectConfig {
    /// A fresh descriptor, at the current format version.
    pub fn new(renku_url: RenkuUrl, project: ProjectInfo) -> (r: RenkuProjectConfig)
        ensures
            r@.version == CONFIG_VERSION,
            r@.renku_url == renku_url@,
            r@.id == project.id@,
            r@.namespace == project.namespace@,
            r@.slug == project.slug@,
    {
        RenkuProjectConfig { version: CONFIG_VERSION, renku_url, project }
    }

    /// Writes the linkage document for this descriptor.
    pub fn to_toml(&self) -> (s: String)
        ensures
            s@ == config_toml(self@),
    {
        let mut s = String::new();
        s.append("version = ");
        let num = u64_to_dec(self.version as u64);
        s.append(num.as_str());
        s.append("\nrenku_url = \"");
        escape_onto(self.renku_url.as_str(), &mut s);
        s.append("\"\n\n[project]\nid = \"");
        escape_onto(self.project.id.as_str(), &mut s);
        s.append("\"\nnamespace = \"");
        escape_onto(self.project.namespace.as_str(), &mut s);
        s.append("\"\nslug = \"");
        escape_onto(self.project.slug.as_str(), &mut s);
        s.append("\"\n");
        proof {
            assert(s@ =~= config_toml(self@));
        }
        s
    }

    /// Reads a linkage document back, as `sp_config` describes;
    /// anything else is a parse failure.
    pub fn from_toml(s: &str) -> (r: Result<RenkuProjectConfig, ProjectConfigError>)
        ensures
            match r {
                Ok(c) => sp_config(s@) == Some(c@),
                Err(e) => sp_config(s@) is None && e == ProjectConfigError::ParseFile,
            },
    {
        let n = s.unicode_len();
        let i1 = match expect_lit(s, n, 0, "version = ") {
            Some(i) => i,
            None => {
                return Err(ProjectConfigError::ParseFile);
            },
        };
        let (version, i2) = match parse_num(s, n, i1) {
            Some(p) => p,
            None => {
                return Err(ProjectConfigError::ParseFile);
            },
        };
        if version > 0xffff {
            return Err(ProjectConfigError::ParseFile);
        }
        let i3 = match expect_lit(s, n, i2, "\nrenku_url = \"") {
            Some(i) => i,
            None => {
                return Err(ProjectConfigError::ParseFile);
            },
        };
        let (renku_url, i4) = match parse_string(s, n, i3) {
            Some(p) => p,
            None => {
                return Err(ProjectConfigError::ParseFile);
            },
        };
        let i5 = match expect_lit(s, n, i4, "\n\n[project]\nid = \"") {
            Some(i) => i,
            None => {
                return Err(ProjectConfigError::ParseFile);
            },
        };
        let (id, i6) = match parse_string(s, n, i5) {
            Some(p) => p,
            None => {
                return Err(ProjectConfigError::ParseFile);
            },
        };
        let i7 = match expect_lit(s, n, i6, "\nnamespace = \"") {
            Some(i) => i,
            None => {
                return Err(ProjectConfigError::ParseFile);
            },
        };
        let (namespace, i8) = match parse_string(s, n, i7) {
            Some(p) => p,
            None => {
                return Err(ProjectConfigError::ParseFile);
            },
        };
        let i9 = match expect_lit(s, n, i8, "\nslug = \"") {
            Some(i) => i,
            None => {
                return Err(ProjectConfigError::ParseFile);
            },
        };
        let (slug, i10) = match parse_string(s, n, i9) {
            Some(p) => p,
            None => {
                return Err(ProjectConfigError::ParseFile);
            },
        };
        let i11 = match expect_lit(s, n, i10, "\n") {
            Some(i) => i,
            None => {
                return Err(ProjectConfigError::ParseFile);
            },
        };
        if i11 != n {
            return Err(ProjectConfigError::ParseFile);
        }
        Ok(
            RenkuProjectConfig {
                version: version as u16,
                renku_url: RenkuUrl::new(renku_url),
                project: ProjectInfo { id, namespace, slug },
            },
        )
    }
}

/// Writing a descriptor and reading the text back yields the
/// descriptor: the linkage file round-trips.
#[verifier::rlimit(100)]
#[verifier::spinoff_prover]
pub proof fn lemma_linkage_round_trip(v: ConfigView)
    ensures
        sp_config(config_toml(v)) == Some(v),
{
    reveal_strlit("version = ");
    reveal_strlit("\nrenku_url = \"");
    reveal_strlit("\"\n\n[project]\nid = \"");
    reveal_strlit("\n\n[project]\nid = \"");
    reveal_strlit("\"\nnamespace = \"");
    reveal_strlit("\nnamespace = \"");
    reveal_strlit("\"\nslug = \"");
    reveal_strlit("\nslug = \"");
    reveal_strlit("\"\n");
    reveal_strlit("\n");
    let s = config_toml(v);
    let p_a = "version = "@;
    let p_b = dec_of(v.version as nat);
    let p_c = "\nrenku_url = \""@;
    let p_d = esc(v.renku_url);
    let p_e = "\"\n\n[project]\nid = \""@;
    let p_f = esc(v.id);
    let p_g = "\"\nnamespace = \""@;
    let p_h = esc(v.namespace);
    let p_i = "\"\nslug = \""@;
    let p_j = esc(v.slug);
    let p_k = "\"\n"@;
    let o1 = p_a.len() as int;
    let o2 = o1 + p_b.len();
    let o3 = o2 + p_c.len();
    let o4 = o3 + p_d.len();
    let o5 = o4 + p_e.len();
    let o6 = o5 + p_f.len();
    let o7 = o6 + p_g.len();
    let o8 = o7 + p_h.len();
    let o9 = o8 + p_i.len();
    let o10 = o9 + p_j.len();
    let o11 = o10 + p_k.len();
    let q1 = p_a + p_b;
    let q2 = q1 + p_c;
    let q3 = q2 + p_d;
    let q4 = q3 + p_e;
    let q5 = q4 + p_f;
    let q6 = q5 + p_g;
    let q7 = q6 + p_h;
    let q8 = q7 + p_i;
    let q9 = q8 + p_j;
    assert(s == q9 + p_k);
    lemma_subrange_extend(p_a, p_b);
    lemma_subrange_extend(q1, p_c);
    lemma_subrange_extend(q2, p_d);
    lemma_subrange_extend(q3, p_e);
    lemma_subrange_extend(q4, p_f);
    lemma_subrange_extend(q5, p_g);
    lemma_subrange_extend(q6, p_h);
    lemma_subrange_extend(q7, p_i);
    lemma_subrange_extend(q8, p_j);
    lemma_subrange_extend(q9, p_k);
    assert(s.len() == o11);
    assert(s.subrange(0, o1) == p_a);
    assert(s.subrange(o1, o2) == p_b);
    assert(s.subrange(o2, o3) == p_c);
    assert(s.subrange(o3, o4) == p_d);
    assert(s.subrange(o4, o5) == p_e);
    assert(s.subrange(o5, o6) == p_f);
    assert(s.subrange(o6, o7) == p_g);
    assert(s.subrange(o7, o8) == p_h);
    assert(s.subrange(o8, o9) == p_i);
    assert(s.subrange(o9, o10) == p_j);
    assert(s.subrange(o10, o11) == p_k);
    // the version line; the newline after the number is no digit
    assert(sp_lit(s, 0, p_a) == Some(o1));
    assert(s[o2] == p_c[0] && p_c[0] == '\n');
    lemma_parse_dec(s, o1, v.version as u64);
    assert(sp_num(s, o1) == Some((v.version as u64, o2)));
    // the URL line
    assert(sp_lit(s, o2, "\nrenku_url = \""@) == Some(o3));
    assert(s[o4] == p_e[0] && p_e[0] == '"');
    lemma_parse_str(s, o3, v.renku_url);
    assert(sp_str(s, o3) == Some((v.renku_url, o4 + 1)));
    // the table header and the id line
    assert(s.subrange(o4 + 1, o5) =~= "\n\n[project]\nid = \""@);
    assert(sp_lit(s, o4 + 1, "\n\n[project]\nid = \""@) == Some(o5));
    assert(s[o6] == p_g[0] && p_g[0] == '"');
    lemma_parse_str(s, o5, v.id);
    assert(sp_str(s, o5) == Some((v.id, o6 + 1)));
    // the namespace line
    assert(s.subrange(o6 + 1, o7) =~= "\nnamespace = \""@);
    assert(sp_lit(s, o6 + 1, "\nnamespace = \""@) == Some(o7));
    assert(s[o8] == p_i[0] && p_i[0] == '"');
    lemma_parse_str(s, o7, v.namespace);
    assert(sp_str(s, o7) == Some((v.namespace, o8 + 1)));
    // the slug line
    assert(s.subrange(o8 + 1, o9) =~= "\nslug = \""@);
    assert(sp_lit(s, o8 + 1, "\nslug = \""@) == Some(o9));
    assert(s[o10] == p_k[0] && p_k[0] == '"');
    lemma_parse_str(s, o9, v.slug);
    assert(sp_str(s, o9) == Some((v.slug, o10 + 1)));
    // the closing newline ends the text
    assert(s.subrange(o10 + 1, o11) =~= "\n"@);
    assert(sp_lit(s, o10 + 1, "\n"@) == Some(o11));
    assert(sp_config(s) == Some(
        ConfigView {
            version: v.version,
            renku_url: v.renku_url,
            id: v.id,
            namespace: v.namespace,
            slug: v.slug,
        },
    ));
}

} // verus!
