//! Path text helpers: numbering a file name before its extension,
//! and relating a traversed entry back to its root.

use vstd::prelude::*;

use crate::codec::{dec_of_int, i32_to_dec, rfind_from, lemma_rfind_from, rfind_char, expect_lit};

verus! {

/// Where the extension of the last path component starts: the
/// position of its last `.`, where one stands after the component's
/// first character; `-1` where the name has no extension.
pub open spec fn extension_dot(s: Seq<char>) -> int {
    let comp = rfind_from(s, s.len() - 1, '/') + 1;
    let dot = rfind_from(s, s.len() - 1, '.');
    if dot > comp {
        dot
    } else {
        -1
    }
}

/// What `splice_name` yields: the suffix, with `_` before it, goes
/// right before the extension where the name has one, and at the end
/// where it has none.
pub open spec fn spliced(s: Seq<char>, suffix: int) -> Seq<char> {
    let dot = extension_dot(s);
    if dot >= 0 {
        s.subrange(0, dot) + seq!['_'] + dec_of_int(suffix) + seq!['.'] + s.subrange(
            dot + 1,
            s.len() as int,
        )
    } else {
        s + seq!['_'] + dec_of_int(suffix)
    }
}

/// Puts `suffix` in the filename before the extension, as `spliced`
/// describes.
pub fn splice_name(fname: &str, suffix: &i32) -> (r: String)
    ensures
        r@ == spliced(fname@, *suffix as int),
{
    let n = fname.unicode_len();
    proof {
        lemma_rfind_from(fname@, n - 1, '/');
        lemma_rfind_from(fname@, n - 1, '.');
    }
    let comp: usize = match rfind_char(fname, n, '/') {
        Some(j) => j + 1,
        None => 0,
    };
    let dot: Option<usize> = match rfind_char(fname, n, '.') {
        Some(j) => if j > comp {
            Some(j)
        } else {
            None
        },
        None => None,
    };
    let num = i32_to_dec(*suffix);
    match dot {
        Some(d) => {
            let mut s = String::new();
            s.append(fname.substring_char(0, d));
            s.append("_");
            s.append(num.as_str());
            s.append(".");
            s.append(fname.substring_char(d + 1, n));
            proof {
                reveal_strlit("_");
                reveal_strlit(".");
                assert(s@ =~= spliced(fname@, *suffix as int));
            }
            s
        },
        None => {
            let mut s = String::new();
            s.append(fname);
            s.append("_");
            s.append(num.as_str());
            proof {
                reveal_strlit("_");
                assert(s@ =~= spliced(fname@, *suffix as int));
            }
            s
        },
    }
}

/// A traversed file, together with the root it was found under.
#[derive(Clone, Debug)]
pub struct PathEntry {
    pub root: String,
    pub entry: String,
}

/// The entry does not lie under its root.
#[derive(Clone, Copy, Debug, PartialEq, Eq, Structural)]
pub struct StripPrefixError;

/// What `sub_path` yields: the entry itself under an empty root, the
/// empty path where entry and root agree, and the part after the
/// root and its separator where the entry lies under the root.
pub open spec fn sub_path_spec(root: Seq<char>, entry: Seq<char>) -> Option<Seq<char>> {
    if root.len() == 0 {
        Some(entry)
    } else if entry == root {
        Some(Seq::empty())
    } else if root.len() < entry.len() && entry.subrange(0, root.len() as int) == root {
        if root[root.len() - 1] == '/' {
            Some(entry.subrange(root.len() as int, entry.len() as int))
        } else if entry[root.len() as int] == '/' {
            Some(entry.subrange(root.len() as int + 1, entry.len() as int))
        } else {
            None
        }
    } else {
        None
    }
}

impl PathEntry {
    /// The entry's path relative to its root, as `sub_path_spec`
    /// describes.
    pub fn sub_path(&self) -> (r: Result<String, StripPrefixError>)
        ensures
            match r {
                Ok(p) => sub_path_spec(self.root@, self.entry@) == Some(p@),
                Err(_) => sub_path_spec(self.root@, self.entry@) is None,
            },
    {
        let n = self.entry.unicode_len();
        let m = self.root.unicode_len();
        if m == 0 {
            return Ok(self.entry.clone());
        }
        if crate::codec::str_eq(self.root.as_str(), self.entry.as_str()) {
            let s = String::new();
            return Ok(s);
        }
        if m < n {
            match expect_lit(self.entry.as_str(), n, 0, self.root.as_str()) {
                Some(_) => {
                    if self.root.as_str().get_char(m - 1) == '/' {
                        return Ok(self.entry.as_str().substring_char(m, n).to_owned());
                    }
                    if self.entry.as_str().get_char(m) == '/' {
                        return Ok(self.entry.as_str().substring_char(m + 1, n).to_owned());
                    }
                    return Err(StripPrefixError);
                },
                None => {
                    return Err(StripPrefixError);
                },
            }
        }
        Err(StripPrefixError)
    }
}

} // verus!
