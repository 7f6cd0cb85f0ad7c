//! The token cache: the JSON document a credential is stored under,
//! its exact format, and the plan for writing it with owner-only
//! permissions.  Reading and writing the file itself is the
//! surrounding binary's job; it hands the text in and out.

use vstd::prelude::*;

use crate::codec::{
    dec_of, esc, is_digit, sp_lit, sp_num, sp_str, expect_lit, parse_num, parse_string, u64_to_dec,
    escape_onto,
};
use crate::httpclient::auth::TokenRecord;

verus! {

/// The fields of a [`TokenRecord`], as mathematical values.
pub struct TokenRecordView {
    pub created_at: u64,
    pub access_token: Seq<char>,
    pub token_type: Seq<char>,
    pub expires_in: Option<u64>,
    pub refresh_token: Option<Seq<char>>,
    pub id_token: Option<Seq<char>>,
}

impl View for TokenRecord {
    type V = TokenRecordView;

    open spec fn view(&self) -> TokenRecordView {
        TokenRecordView {
            created_at: self.created_at,
            access_token: self.access_token@,
            token_type: self.token_type@,
            expires_in: self.expires_in,
            refresh_token: match self.refresh_token {
                Some(s) => Some(s@),
                None => None,
            },
            id_token: match self.id_token {
                Some(s) => Some(s@),
                None => None,
            },
        }
    }
}

/// An optional number as JSON: its decimal digits, or `null`.
pub open spec fn json_num_opt(o: Option<u64>) -> Seq<char> {
    match o {
        Some(n) => dec_of(n as nat),
        None => "null"@,
    }
}

/// An optional string as JSON: quoted and escaped, or `null`.
pub open spec fn json_str_opt(o: Option<Seq<char>>) -> Seq<char> {
    match o {
        Some(t) => seq!['"'] + esc(t) + seq!['"'],
        None => "null"@,
    }
}

/// The document a record is stored under:
/// `{"created_at":N,"response":{"access_token":A,...}}`, with the
/// optional fields written as `null` when absent.
pub open spec fn token_json(v: TokenRecordView) -> Seq<char> {
    "{\"created_at\":"@ + dec_of(v.created_at as nat) + ",\"response\":{\"access_token\":\""@
        + esc(v.access_token) + "\",\"token_type\":\""@ + esc(v.token_type)
        + "\",\"expires_in\":"@ + json_num_opt(v.expires_in) + ",\"refresh_token\":"@
        + json_str_opt(v.refresh_token) + ",\"id_token\":"@ + json_str_opt(v.id_token) + "}}"@
}

/// Reads an optional number: `null`, or decimal digits.
pub open spec fn sp_opt_num(s: Seq<char>, i: int) -> Option<(Option<u64>, int)> {
    if sp_lit(s, i, "null"@) is Some {
        Some((None, i + 4))
    } else {
        match sp_num(s, i) {
            Some((v, j)) => Some((Some(v), j)),
            None => None,
        }
    }
}

/// Reads an optional string: `null`, or a quoted string.
pub open spec fn sp_opt_str(s: Seq<char>, i: int) -> Option<(Option<Seq<char>>, int)> {
    if sp_lit(s, i, "null"@) is Some {
        Some((None, i + 4))
    } else if 0 <= i < s.len() && s[i] == '"' {
        match sp_str(s, i + 1) {
            Some((t, j)) => Some((Some(t), j)),
            None => None,
        }
    } else {
        None
    }
}

/// Reads a whole cache document; the text must carry nothing else.
pub open spec fn sp_token(s: Seq<char>) -> Option<TokenRecordView> {
    match sp_lit(s, 0, "{\"created_at\":"@) {
        None => None,
        Some(i1) => match sp_num(s, i1) {
            None => None,
            Some((created_at, i2)) => match sp_lit(s, i2, ",\"response\":{\"access_token\":\""@) {
                None => None,
                Some(i3) => match sp_str(s, i3) {
                    None => None,
                    Some((access_token, i4)) => match sp_lit(s, i4, ",\"token_type\":\""@) {
                        None => None,
                        Some(i5) => match sp_str(s, i5) {
                            None => None,
                            Some((token_type, i6)) => match sp_lit(s, i6, ",\"expires_in\":"@) {
                                None => None,
                                Some(i7) => match sp_opt_num(s, i7) {
                                    None => None,
                                    Some((expires_in, i8)) => match sp_lit(
                                        s,
                                        i8,
                                        ",\"refresh_token\":"@,
                                    ) {
                                        None => None,
                                        Some(i9) => match sp_opt_str(s, i9) {
                                            None => None,
                                            Some((refresh_token, i10)) => match sp_lit(
                                                s,
                                                i10,
                                                ",\"id_token\":"@,
                                            ) {
                                                None => None,
                                                Some(i11) => match sp_opt_str(s, i11) {
                                                    None => None,
                                                    Some((id_token, i12)) => match sp_lit(
                                                        s,
                                                        i12,
                                                        "}}"@,
                                                    ) {
                                                        None => None,
                                                        Some(i13) => if i13 == s.len() {
                                                            Some(
                                                                TokenRecordView {
                                                                    created_at,
                                                                    access_token,
                                                                    token_type,
                                                                    expires_in,
                                                                    refresh_token,
                                                                    id_token,
                                                                },
                                                            )
                                                        } else {
                                                            None
                                                        },
                                                    },
                                                },
                                            },
                                        },
                                    },
                                },
                            },
                        },
                    },
                },
            },
        },
    }
}

/// Where the written form of an optional number stands at `i`, not
/// followed by a further digit, reading an optional number yields it.
proof fn lemma_parse_opt_num(s: Seq<char>, i: int, o: Option<u64>)
    requires
        0 <= i,
        i + json_num_opt(o).len() <= s.len(),
        s.subrange(i, i + json_num_opt(o).len()) == json_num_opt(o),
        o is Some ==> (i + json_num_opt(o).len() == s.len() || !is_digit(
            s[i + json_num_opt(o).len()],
        )),
    ensures
        sp_opt_num(s, i) == Some((o, i + json_num_opt(o).len())),
{
    reveal_strlit("null");
    match o {
        Some(n) => {
            crate::codec::lemma_dec_of_digits(n as nat);
            assert(s[i] == dec_of(n as nat)[0]);
            assert(is_digit(s[i]));
            if sp_lit(s, i, "null"@) is Some {
                assert(s.subrange(i, i + 4)[0] == 'n');
                assert(false);
            }
            crate::codec::lemma_parse_dec(s, i, n);
        },
        None => {
            assert(sp_lit(s, i, "null"@) == Some(i + 4));
        },
    }
}

/// Where the written form of an optional string stands at `i`,
/// reading an optional string yields it.
proof fn lemma_parse_opt_str(s: Seq<char>, i: int, o: Option<Seq<char>>)
    requires
        0 <= i,
        i + json_str_opt(o).len() <= s.len(),
        s.subrange(i, i + json_str_opt(o).len()) == json_str_opt(o),
    ensures
        sp_opt_str(s, i) == Some((o, i + json_str_opt(o).len())),
{
    reveal_strlit("null");
    let p = json_str_opt(o);
    match o {
        Some(t) => {
            assert(s[i] == p[0]);
            assert(s[i] == '"');
            if sp_lit(s, i, "null"@) is Some {
                assert(s.subrange(i, i + 4)[0] == 'n');
                assert(false);
            }
            let e = esc(t);
            assert forall|m: int| 0 <= m < e.len() implies s[i + 1 + m] == e[m] by {
                assert(s[i + 1 + m] == s.subrange(i, i + p.len())[1 + m]);
                assert(p[1 + m] == e[m]);
            }
            assert(s.subrange(i + 1, i + 1 + e.len()) =~= e);
            assert(s[i + 1 + e.len()] == p[p.len() - 1]);
            assert(s[i + 1 + e.len()] == '"');
            crate::codec::lemma_parse_str(s, i + 1, t);
        },
        None => {
            assert(sp_lit(s, i, "null"@) == Some(i + 4));
        },
    }
}

/// Writing a record and reading the text back yields the record: the
/// cache round-trips every well-formed record.
#[verifier::rlimit(100)]
#[verifier::spinoff_prover]
pub proof fn lemma_token_cache_round_trip(v: TokenRecordView)
    ensures
        sp_token(token_json(v)) == Some(v),
{
    reveal_strlit("{\"created_at\":");
    reveal_strlit(",\"response\":{\"access_token\":\"");
    reveal_strlit("\",\"token_type\":\"");
    reveal_strlit(",\"token_type\":\"");
    reveal_strlit("\",\"expires_in\":");
    reveal_strlit(",\"expires_in\":");
    reveal_strlit(",\"refresh_token\":");
    reveal_strlit(",\"id_token\":");
    reveal_strlit("}}");
    reveal_strlit("null");
    let s = token_json(v);
    let p_a = "{\"created_at\":"@;
    let p_b = dec_of(v.created_at as nat);
    let p_c = ",\"response\":{\"access_token\":\""@;
    let p_d = esc(v.access_token);
    let p_e = "\",\"token_type\":\""@;
    let p_f = esc(v.token_type);
    let p_g = "\",\"expires_in\":"@;
    let p_h = json_num_opt(v.expires_in);
    let p_i = ",\"refresh_token\":"@;
    let p_j = json_str_opt(v.refresh_token);
    let p_k = ",\"id_token\":"@;
    let p_l = json_str_opt(v.id_token);
    let p_m = "}}"@;
    let o1 = p_a.len() as int;
    let o2 = o1 + p_b.len();
    let o3 = o2 + p_c.len();
    let o4 = o3 + p_d.len();
    let o5 = o4 + p_e.len();
    let o6 = o5 + p_f.len();
    let o7 = o6 + p_g.len();
    let o8 = o7 + p_h.len();
    let o9 = o8 + p_i.len();
    let o10 = o9 + p_j.len();
    let o11 = o10 + p_k.len();
    let o12 = o11 + p_l.len();
    let o13 = o12 + p_m.len();
    let q1 = p_a + p_b;
    let q2 = q1 + p_c;
    let q3 = q2 + p_d;
    let q4 = q3 + p_e;
    let q5 = q4 + p_f;
    let q6 = q5 + p_g;
    let q7 = q6 + p_h;
    let q8 = q7 + p_i;
    let q9 = q8 + p_j;
    let q10 = q9 + p_k;
    let q11 = q10 + p_l;
    assert(s == q11 + p_m);
    crate::codec::lemma_subrange_extend(p_a, p_b);
    crate::codec::lemma_subrange_extend(q1, p_c);
    crate::codec::lemma_subrange_extend(q2, p_d);
    crate::codec::lemma_subrange_extend(q3, p_e);
    crate::codec::lemma_subrange_extend(q4, p_f);
    crate::codec::lemma_subrange_extend(q5, p_g);
    crate::codec::lemma_subrange_extend(q6, p_h);
    crate::codec::lemma_subrange_extend(q7, p_i);
    crate::codec::lemma_subrange_extend(q8, p_j);
    crate::codec::lemma_subrange_extend(q9, p_k);
    crate::codec::lemma_subrange_extend(q10, p_l);
    crate::codec::lemma_subrange_extend(q11, p_m);
    assert(s.len() == o13);
    assert(s.subrange(0, o1) == p_a);
    assert(s.subrange(o1, o2) == p_b);
    assert(s.subrange(o2, o3) == p_c);
    assert(s.subrange(o3, o4) == p_d);
    assert(s.subrange(o4, o5) == p_e);
    assert(s.subrange(o5, o6) == p_f);
    assert(s.subrange(o6, o7) == p_g);
    assert(s.subrange(o7, o8) == p_h);
    assert(s.subrange(o8, o9) == p_i);
    assert(s.subrange(o9, o10) == p_j);
    assert(s.subrange(o10, o11) == p_k);
    assert(s.subrange(o11, o12) == p_l);
    assert(s.subrange(o12, o13) == p_m);
    // the opening brace and the key of `created_at`
    assert(sp_lit(s, 0, p_a) == Some(o1));
    // the issuance time; the comma after it is no digit
    assert(s[o2] == p_c[0] && p_c[0] == ',');
    crate::codec::lemma_parse_dec(s, o1, v.created_at);
    assert(sp_num(s, o1) == Some((v.created_at, o2)));
    // the key of `access_token`, up to its opening quote
    assert(sp_lit(s, o2, ",\"response\":{\"access_token\":\""@) == Some(o3));
    // the access token; its closing quote opens the next literal
    assert(s[o4] == p_e[0] && p_e[0] == '"');
    crate::codec::lemma_parse_str(s, o3, v.access_token);
    assert(sp_str(s, o3) == Some((v.access_token, o4 + 1)));
    // the key of `token_type`: the rest of that literal
    assert(s.subrange(o4 + 1, o5) =~= ",\"token_type\":\""@);
    assert(sp_lit(s, o4 + 1, ",\"token_type\":\""@) == Some(o5));
    // the token type
    assert(s[o6] == p_g[0] && p_g[0] == '"');
    crate::codec::lemma_parse_str(s, o5, v.token_type);
    assert(sp_str(s, o5) == Some((v.token_type, o6 + 1)));
    // the key of `expires_in`
    assert(s.subrange(o6 + 1, o7) =~= ",\"expires_in\":"@);
    assert(sp_lit(s, o6 + 1, ",\"expires_in\":"@) == Some(o7));
    // the lifetime; the comma after it is no digit
    assert(s[o8] == p_i[0] && p_i[0] == ',');
    lemma_parse_opt_num(s, o7, v.expires_in);
    // the key and value of `refresh_token`
    assert(sp_lit(s, o8, ",\"refresh_token\":"@) == Some(o9));
    lemma_parse_opt_str(s, o9, v.refresh_token);
    // the key and value of `id_token`
    assert(sp_lit(s, o10, ",\"id_token\":"@) == Some(o11));
    lemma_parse_opt_str(s, o11, v.id_token);
    // the closing braces end the text
    assert(sp_lit(s, o12, "}}"@) == Some(o13));
    assert(sp_token(s) == Some(
        TokenRecordView {
            created_at: v.created_at,
            access_token: v.access_token,
            token_type: v.token_type,
            expires_in: v.expires_in,
            refresh_token: v.refresh_token,
            id_token: v.id_token,
        },
    ));
}

/// Failures of the cache, as the caller sees them.
#[derive(Clone, Debug, PartialEq, Eq, Structural)]
pub enum Error {
    /// The file could not be written.
    WriteFile,
    /// The file could not be read.
    ReadFile,
    /// The file's content is not a cache document.
    JsonDecode,
}

/// Writes the cache document for `t`.
pub fn encode_token_record(t: &TokenRecord) -> (s: String)
    ensures
        s@ == token_json(t@),
{
    let mut s = String::new();
    s.append("{\"created_at\":");
    let num = u64_to_dec(t.created_at);
    s.append(num.as_str());
    s.append(",\"response\":{\"access_token\":\"");
    escape_onto(t.access_token.as_str(), &mut s);
    s.append("\",\"token_type\":\"");
    escape_onto(t.token_type.as_str(), &mut s);
    s.append("\",\"expires_in\":");
    match t.expires_in {
        Some(n) => {
            let num = u64_to_dec(n);
            s.append(num.as_str());
        },
        None => {
            s.append("null");
        },
    }
    s.append(",\"refresh_token\":");
    match &t.refresh_token {
        Some(r) => {
            s.append("\"");
            escape_onto(r.as_str(), &mut s);
            s.append("\"");
            proof {
                assert(seq!['"'] + esc(r@) + seq!['"'] =~= ("\""@ + esc(r@)) + "\""@) by {
                    reveal_strlit("\"");
                }
            }
        },
        None => {
            s.append("null");
        },
    }
    s.append(",\"id_token\":");
    match &t.id_token {
        Some(r) => {
            s.append("\"");
            escape_onto(r.as_str(), &mut s);
            s.append("\"");
            proof {
                assert(seq!['"'] + esc(r@) + seq!['"'] =~= ("\""@ + esc(r@)) + "\""@) by {
                    reveal_strlit("\"");
                }
            }
        },
        None => {
            s.append("null");
        },
    }
    s.append("}}");
    proof {
        assert(s@ =~= token_json(t@));
    }
    s
}

/// Reads a cache document back into a record, as `sp_token`
/// describes; anything else is a decode failure.
pub fn parse_token_record(s: &str) -> (r: Result<TokenRecord, Error>)
    ensures
        match r {
            Ok(t) => sp_token(s@) == Some(t@),
            Err(e) => sp_token(s@) is None && e == Error::JsonDecode,
        },
{
    let n = s.unicode_len();
    let i1 = match expect_lit(s, n, 0, "{\"created_at\":") {
        Some(i) => i,
        None => {
            return Err(Error::JsonDecode);
        },
    };
    let (created_at, i2) = match parse_num(s, n, i1) {
        Some(p) => p,
        None => {
            return Err(Error::JsonDecode);
        },
    };
    let i3 = match expect_lit(s, n, i2, ",\"response\":{\"access_token\":\"") {
        Some(i) => i,
        None => {
            return Err(Error::JsonDecode);
        },
    };
    let (access_token, i4) = match parse_string(s, n, i3) {
        Some(p) => p,
        None => {
            return Err(Error::JsonDecode);
        },
    };
    let i5 = match expect_lit(s, n, i4, ",\"token_type\":\"") {
        Some(i) => i,
        None => {
            return Err(Error::JsonDecode);
        },
    };
    let (token_type, i6) = match parse_string(s, n, i5) {
        Some(p) => p,
        None => {
            return Err(Error::JsonDecode);
        },
    };
    let i7 = match expect_lit(s, n, i6, ",\"expires_in\":") {
        Some(i) => i,
        None => {
            return Err(Error::JsonDecode);
        },
    };
    let (expires_in, i8) = match parse_opt_num(s, n, i7) {
        Some(p) => p,
        None => {
            return Err(Error::JsonDecode);
        },
    };
    let i9 = match expect_lit(s, n, i8, ",\"refresh_token\":") {
        Some(i) => i,
        None => {
            return Err(Error::JsonDecode);
        },
    };
    let (refresh_token, i10) = match parse_opt_str(s, n, i9) {
        Some(p) => p,
        None => {
            return Err(Error::JsonDecode);
        },
    };
    let i11 = match expect_lit(s, n, i10, ",\"id_token\":") {
        Some(i) => i,
        None => {
            return Err(Error::JsonDecode);
        },
    };
    let (id_token, i12) = match parse_opt_str(s, n, i11) {
        Some(p) => p,
        None => {
            return Err(Error::JsonDecode);
        },
    };
    let i13 = match expect_lit(s, n, i12, "}}") {
        Some(i) => i,
        None => {
            return Err(Error::JsonDecode);
        },
    };
    if i13 != n {
        return Err(Error::JsonDecode);
    }
    let t = TokenRecord {
        created_at,
        access_token,
        token_type,
        expires_in,
        refresh_token,
        id_token,
    };
    Ok(t)
}

/// Reads an optional number, as `sp_opt_num` describes.
fn parse_opt_num(s: &str, n: usize, i: usize) -> (r: Option<(Option<u64>, usize)>)
    requires
        n == s@.len(),
        i <= n,
    ensures
        match r {
            Some((v, j)) => sp_opt_num(s@, i as int) == Some((v, j as int)) && i <= j <= n,
            None => sp_opt_num(s@, i as int) is None,
        },
{
    match expect_lit(s, n, i, "null") {
        Some(j) => {
            proof {
                reveal_strlit("null");
            }
            Some((None, j))
        },
        None => {
            match parse_num(s, n, i) {
                Some((v, j)) => Some((Some(v), j)),
                None => None,
            }
        },
    }
}

/// Reads an optional string, as `sp_opt_str` describes.
fn parse_opt_str(s: &str, n: usize, i: usize) -> (r: Option<(Option<String>, usize)>)
    requires
        n == s@.len(),
        i <= n,
    ensures
        match r {
            Some((v, j)) => sp_opt_str(s@, i as int) == Some(
                (
                    match v {
                        Some(t) => Some(t@),
                        None => None,
                    },
                    j as int,
                ),
            ) && i <= j <= n,
            None => sp_opt_str(s@, i as int) is None,
        },
{
    match expect_lit(s, n, i, "null") {
        Some(j) => {
            proof {
                reveal_strlit("null");
            }
            Some((None, j))
        },
        None => {
            if i < n && s.get_char(i) == '"' {
                match parse_string(s, n, i + 1) {
                    Some((t, j)) => Some((Some(t), j)),
                    None => None,
                }
            } else {
                None
            }
        },
    }
}


/// The name of the cache file inside the application data directory.
pub const TOKEN_FILE_NAME: &'static str = "token.json";

/// The permission bits the cache file is restricted to where the
/// platform has POSIX permission bits: owner read and write only.
pub const TOKEN_FILE_MODE: u32 = 0o600;

/// Joins a directory and a file name with a single separator.
pub fn join_path(dir: &str, name: &str) -> (r: String)
    ensures
        r@ == dir@ + "/"@ + name@,
{
    let mut s = String::new();
    s.append(dir);
    s.append("/");
    s.append(name);
    s
}

/// The path of the token cache file under `cache_dir`.
pub fn token_file(cache_dir: &str) -> (r: String)
    ensures
        r@ == cache_dir@ + "/"@ + "token.json"@,
{
    join_path(cache_dir, TOKEN_FILE_NAME)
}

/// The per-user application directories of this tool.  Relies on
/// `directories::ProjectDirs`, which locates platform conventions
/// from the environment; nothing is promised of the outcome.
#[verifier::external_type_specification]
#[verifier::external_body]
pub struct ExProjectDirs(directories::ProjectDirs);

/// Relies on `directories::ProjectDirs::from`: the per-user project
/// directories for the given qualifier, organization and application,
/// or nothing where no home directory is known.  The result depends
/// on the environment, so nothing is promised of it.
#[verifier::external_body]
fn project_dirs_from(qualifier: &str, organization: &str, application: &str) -> (r: Option<
    directories::ProjectDirs,
>) {
    directories::ProjectDirs::from(qualifier, organization, application)
}

/// Relies on `directories::ProjectDirs::data_dir`: the data directory
/// of the project directories, here as text.  The path reflects the
/// environment, so nothing is promised of it.
#[verifier::external_body]
fn data_dir_of(dirs: &directories::ProjectDirs) -> (r: String) {
    dirs.data_dir().to_string_lossy().into_owned()
}

/// The directory the token cache lives in: the per-user application
/// data directory, or `renku-cli` under the given fallback directory
/// where no per-user directory is known.
pub fn find_cache_dir(fallback_dir: &str) -> String {
    match project_dirs_from("io.renku", "sdsc", "renku-cli") {
        Some(dirs) => data_dir_of(&dirs),
        None => join_path(fallback_dir, "renku-cli"),
    }
}

/// One planned write of the token cache: where, what, and how the
/// file is to be restricted afterwards.
pub struct CacheWritePlan {
    pub path: String,
    pub contents: String,
    /// POSIX permission bits to set after writing; a no-op where the
    /// platform has none.
    pub mode: u32,
}

/// Plans the write of `record` into the cache under `cache_dir`: the
/// exact document text, and permission bits of owner read and write
/// only.
pub fn token_write_plan(record: &TokenRecord, cache_dir: &str) -> (plan: CacheWritePlan)
    ensures
        plan.path@ == cache_dir@ + "/"@ + "token.json"@,
        plan.contents@ == token_json(record@),
        plan.mode == 0o600u32,
{
    CacheWritePlan {
        path: token_file(cache_dir),
        contents: encode_token_record(record),
        mode: TOKEN_FILE_MODE,
    }
}

} // verus!
