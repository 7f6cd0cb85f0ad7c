//! Text encoding and decoding primitives shared by the token cache
//! (JSON) and the project linkage file (TOML): decimal numbers,
//! escaped strings, and literal text, each with an exec form proved
//! against a spec form.

use vstd::prelude::*;

verus! {

/// Appends a single character to a `String`.  Relies on
/// `alloc::string::String::push`, which appends the given `char` to
/// the end of the string.
pub assume_specification[ String::push ](s: &mut String, c: char)
    ensures
        final(s)@ == old(s)@.push(c),
;

pub open spec fn is_digit(c: char) -> bool {
    '0' <= c && c <= '9'
}

pub open spec fn digit_val(c: char) -> nat
    recommends
        is_digit(c),
{
    (c as nat - 48) as nat
}

pub open spec fn digit_char(d: nat) -> char
    recommends
        d < 10,
{
    (d + 48) as char
}

/// The decimal notation of `n`, without sign or leading zeros.
pub open spec fn dec_of(n: nat) -> Seq<char>
    decreases n,
{
    if n < 10 {
        seq![digit_char(n)]
    } else {
        dec_of(n / 10).push(digit_char(n % 10))
    }
}

/// The value of a sequence of decimal digits.
pub open spec fn val_of_digits(ds: Seq<char>) -> nat
    decreases ds.len(),
{
    if ds.len() == 0 {
        0
    } else {
        val_of_digits(ds.drop_last()) * 10 + digit_val(ds.last())
    }
}

fn digit_to_char(d: u8) -> (c: char)
    requires
        d < 10,
    ensures
        c == digit_char(d as nat),
        is_digit(c),
        digit_val(c) == d as nat,
{
    (d + 48) as char
}

/// Formats `n` in decimal.
pub fn u64_to_dec(n: u64) -> (s: String)
    ensures
        s@ == dec_of(n as nat),
    decreases n,
{
    if n < 10 {
        let mut s = String::new();
        s.push(digit_to_char(n as u8));
        assert(s@ =~= seq![digit_char(n as nat)]);
        s
    } else {
        let mut s = u64_to_dec(n / 10);
        s.push(digit_to_char((n % 10) as u8));
        s
    }
}

/// The end of the run of decimal digits that starts at `i`.
pub open spec fn digit_run_end(s: Seq<char>, i: int) -> int
    recommends
        0 <= i <= s.len(),
    decreases s.len() - i,
{
    if i < s.len() && is_digit(s[i]) {
        digit_run_end(s, i + 1)
    } else {
        i
    }
}

/// Reads a decimal number starting at `i`: the value of the maximal
/// digit run, and the position after it.  Nothing is read when no
/// digit stands at `i` or the value exceeds `u64::MAX`.
pub open spec fn sp_num(s: Seq<char>, i: int) -> Option<(u64, int)>
    recommends
        0 <= i <= s.len(),
{
    let j = digit_run_end(s, i);
    if j == i {
        None
    } else {
        let v = val_of_digits(s.subrange(i, j));
        if v > u64::MAX {
            None
        } else {
            Some((v as u64, j))
        }
    }
}

pub open spec fn pow10(k: nat) -> nat
    decreases k,
{
    if k == 0 {
        1
    } else {
        10 * pow10((k - 1) as nat)
    }
}

proof fn lemma_pow10_pos(k: nat)
    ensures
        pow10(k) >= 1,
    decreases k,
{
    if k > 0 {
        lemma_pow10_pos((k - 1) as nat);
    }
}

/// The value of a digit run splits at any point into a high and a low part.
proof fn lemma_val_split(ds: Seq<char>, t: int)
    requires
        0 <= t <= ds.len(),
    ensures
        val_of_digits(ds) == val_of_digits(ds.subrange(0, t)) * pow10((ds.len() - t) as nat)
            + val_of_digits(ds.subrange(t, ds.len() as int)),
    decreases ds.len() - t,
{
    if t == ds.len() {
        assert(ds.subrange(0, t) =~= ds);
        assert(ds.subrange(t, ds.len() as int) =~= Seq::<char>::empty());
        assert(val_of_digits(ds) == val_of_digits(ds.subrange(0, t)) * 1 + 0);
    } else {
        let pre = ds.subrange(0, ds.len() - 1);
        lemma_val_split(pre, t);
        assert(pre.subrange(0, t) =~= ds.subrange(0, t));
        assert(ds.drop_last() =~= pre);
        let low = ds.subrange(t, ds.len() as int);
        assert(low.len() > 0);
        assert(low.drop_last() =~= pre.subrange(t, pre.len() as int));
        assert(low.last() == ds.last());
        let k = (ds.len() - 1 - t) as nat;
        let hi = val_of_digits(ds.subrange(0, t));
        let lo = val_of_digits(low.drop_last());
        let dl = digit_val(ds.last());
        assert(val_of_digits(ds) == val_of_digits(pre) * 10 + dl);
        assert(val_of_digits(pre) == hi * pow10(k) + lo);
        assert(pow10(k + 1) == 10 * pow10(k));
        assert(val_of_digits(low) == lo * 10 + dl);
        assert((hi * pow10(k) + lo) * 10 + dl == hi * (10 * pow10(k)) + (lo * 10 + dl))
            by (nonlinear_arith);
        assert((ds.len() - t) as nat == k + 1);
    }
}

/// A digit run's value is at least the value of any of its prefixes.
proof fn lemma_val_prefix_le(ds: Seq<char>, t: int)
    requires
        0 <= t <= ds.len(),
    ensures
        val_of_digits(ds.subrange(0, t)) <= val_of_digits(ds),
{
    lemma_val_split(ds, t);
    lemma_pow10_pos((ds.len() - t) as nat);
    let hi = val_of_digits(ds.subrange(0, t));
    let p = pow10((ds.len() - t) as nat);
    assert(hi * p >= hi * 1 >= hi) by (nonlinear_arith)
        requires
            p >= 1,
    ;
}

fn char_digit_val(c: char) -> (d: u8)
    requires
        is_digit(c),
    ensures
        d as nat == digit_val(c),
        d < 10,
{
    ((c as u32) - 48) as u8
}

fn is_digit_exec(c: char) -> (b: bool)
    ensures
        b == is_digit(c),
{
    let u = c as u32;
    48 <= u && u <= 57
}

/// Reads a decimal number from `s` starting at byte-free character
/// position `i`, as `sp_num` describes.
pub fn parse_num(s: &str, n: usize, i: usize) -> (r: Option<(u64, usize)>)
    requires
        n == s@.len(),
        i <= n,
    ensures
        match r {
            Some((v, j)) => sp_num(s@, i as int) == Some((v, j as int)) && i < j <= n,
            None => sp_num(s@, i as int) is None,
        },
{
    if i == n || !is_digit_exec(s.get_char(i)) {
        return None;
    }
    let ghost e = digit_run_end(s@, i as int);
    proof {
        lemma_digit_run_end_bounds(s@, i as int);
    }
    let mut j: usize = i;
    let mut acc: u64 = 0;
    while j < n && is_digit_exec(s.get_char(j))
        invariant
            i <= j <= n,
            n == s@.len(),
            digit_run_end(s@, i as int) == e,
            digit_run_end(s@, j as int) == e,
            i <= e <= n,
            j <= e,
            acc as nat == val_of_digits(s@.subrange(i as int, j as int)),
        decreases n - j,
    {
        let d = char_digit_val(s.get_char(j));
        let ghost full = s@.subrange(i as int, e);
        proof {
            lemma_digit_run_end_bounds(s@, j + 1);
            assert(digit_run_end(s@, j as int) == digit_run_end(s@, j + 1));
            assert(e >= j + 1);
            assert(s@.subrange(i as int, j + 1).drop_last() =~= s@.subrange(i as int, j as int));
            assert(val_of_digits(s@.subrange(i as int, j + 1)) == acc * 10 + d);
            lemma_val_prefix_le(full, j + 1 - i);
            assert(full.subrange(0, j + 1 - i) =~= s@.subrange(i as int, j + 1));
            assert(val_of_digits(full) >= acc * 10 + d);
        }
        let a10 = match acc.checked_mul(10) {
            Some(a10) => a10,
            None => {
                proof {
                    assert(acc * 10 + d >= acc * 10);
                }
                return None;
            },
        };
        acc = match a10.checked_add(d as u64) {
            Some(a) => a,
            None => {
                return None;
            },
        };
        j = j + 1;
    }
    assert(j == e);
    Some((acc, j))
}

proof fn lemma_digit_run_end_bounds(s: Seq<char>, i: int)
    requires
        0 <= i <= s.len(),
    ensures
        i <= digit_run_end(s, i) <= s.len(),
        forall|m: int| i <= m < digit_run_end(s, i) ==> is_digit(#[trigger] s[m]),
        digit_run_end(s, i) == s.len() || !is_digit(s[digit_run_end(s, i)]),
    decreases s.len() - i,
{
    if i < s.len() && is_digit(s[i]) {
        lemma_digit_run_end_bounds(s, i + 1);
    }
}

/// Every character of a decimal notation is a digit.
pub proof fn lemma_dec_of_digits(n: nat)
    ensures
        dec_of(n).len() >= 1,
        forall|m: int| 0 <= m < dec_of(n).len() ==> is_digit(#[trigger] dec_of(n)[m]),
    decreases n,
{
    if n >= 10 {
        lemma_dec_of_digits(n / 10);
    }
}

/// The decimal notation of `n` reads back as `n`.
proof fn lemma_val_of_dec(n: nat)
    ensures
        val_of_digits(dec_of(n)) == n,
    decreases n,
{
    if n < 10 {
        assert(dec_of(n).drop_last() =~= Seq::<char>::empty());
        assert(dec_of(n).last() == digit_char(n));
        assert(digit_val(digit_char(n)) == n);
        assert(val_of_digits(Seq::<char>::empty()) == 0);
        assert(dec_of(n).len() == 1);
        assert(val_of_digits(dec_of(n)) == n);
    } else {
        lemma_val_of_dec(n / 10);
        assert(dec_of(n).drop_last() =~= dec_of(n / 10));
        assert(dec_of(n).last() == digit_char(n % 10));
        assert(digit_val(digit_char(n % 10)) == n % 10);
        assert(val_of_digits(dec_of(n)) == (n / 10) * 10 + n % 10);
        assert((n / 10) * 10 + n % 10 == n) by (nonlinear_arith);
    }
}

proof fn lemma_digit_run_end_exact(s: Seq<char>, i: int, j: int)
    requires
        0 <= i <= j <= s.len(),
        forall|m: int| i <= m < j ==> is_digit(#[trigger] s[m]),
        j == s.len() || !is_digit(s[j]),
    ensures
        digit_run_end(s, i) == j,
    decreases j - i,
{
    if i < j {
        lemma_digit_run_end_exact(s, i + 1, j);
    }
}

/// Where the decimal notation of `n` stands at `i`, followed by no
/// further digit, reading a number at `i` yields `n`.
pub proof fn lemma_parse_dec(s: Seq<char>, i: int, n: u64)
    requires
        0 <= i,
        i + dec_of(n as nat).len() <= s.len(),
        s.subrange(i, i + dec_of(n as nat).len()) == dec_of(n as nat),
        i + dec_of(n as nat).len() == s.len() || !is_digit(s[i + dec_of(n as nat).len()]),
    ensures
        sp_num(s, i) == Some((n, i + dec_of(n as nat).len())),
{
    let d = dec_of(n as nat);
    let j = i + d.len();
    lemma_dec_of_digits(n as nat);
    assert forall|m: int| i <= m < j implies is_digit(#[trigger] s[m]) by {
        assert(s[m] == s.subrange(i, i + d.len() as int)[m - i]);
        assert(is_digit(d[m - i]));
    }
    lemma_digit_run_end_exact(s, i, j);
    lemma_val_of_dec(n as nat);
}

pub open spec fn is_hex_lower(c: char) -> bool {
    is_digit(c) || ('a' <= c && c <= 'f')
}

pub open spec fn hex_val(c: char) -> nat
    recommends
        is_hex_lower(c),
{
    if is_digit(c) {
        digit_val(c)
    } else {
        (c as nat - 87) as nat
    }
}

pub open spec fn hex_digit(d: nat) -> char
    recommends
        d < 16,
{
    if d < 10 {
        (d + 48) as char
    } else {
        (d + 87) as char
    }
}

/// How one character is written inside a quoted string: quote and
/// backslash get a backslash, control characters become `\u00XY`,
/// and every other character stands for itself.
pub open spec fn esc_char(c: char) -> Seq<char> {
    if c == '"' {
        seq!['\\', '"']
    } else if c == '\\' {
        seq!['\\', '\\']
    } else if (c as nat) < 32 {
        seq!['\\', 'u', '0', '0', hex_digit((c as nat) / 16), hex_digit((c as nat) % 16)]
    } else {
        seq![c]
    }
}

/// The escaped form of a whole string, without the surrounding quotes.
pub open spec fn esc(s: Seq<char>) -> Seq<char>
    decreases s.len(),
{
    if s.len() == 0 {
        Seq::empty()
    } else {
        esc_char(s[0]) + esc(s.drop_first())
    }
}

pub proof fn lemma_esc_concat(a: Seq<char>, b: Seq<char>)
    ensures
        esc(a + b) == esc(a) + esc(b),
    decreases a.len(),
{
    if a.len() == 0 {
        assert(a + b =~= b);
        assert(esc(a) + esc(b) =~= esc(b));
    } else {
        lemma_esc_concat(a.drop_first(), b);
        assert((a + b).drop_first() =~= a.drop_first() + b);
        assert((a + b)[0] == a[0]);
        assert(a + b =~= seq![a[0]] + (a.drop_first() + b));
        assert(esc(a + b) == esc_char(a[0]) + (esc(a.drop_first()) + esc(b)));
        assert(esc_char(a[0]) + (esc(a.drop_first()) + esc(b)) =~= (esc_char(a[0]) + esc(
            a.drop_first(),
        )) + esc(b));
    }
}

/// Reads a quoted string's contents starting at `i` (just after the
/// opening quote): the unescaped characters up to the closing quote,
/// and the position after that quote.
pub open spec fn sp_str(s: Seq<char>, i: int) -> Option<(Seq<char>, int)>
    recommends
        0 <= i <= s.len(),
    decreases s.len() - i,
{
    if i < 0 || i >= s.len() {
        None
    } else if s[i] == '"' {
        Some((Seq::empty(), i + 1))
    } else if s[i] == '\\' {
        if i + 1 < s.len() && (s[i + 1] == '"' || s[i + 1] == '\\') {
            match sp_str(s, i + 2) {
                Some((t, j)) => Some((seq![s[i + 1]] + t, j)),
                None => None,
            }
        } else if i + 5 < s.len() && s[i + 1] == 'u' && s[i + 2] == '0' && s[i + 3] == '0'
            && is_hex_lower(s[i + 4]) && is_hex_lower(s[i + 5]) {
            let c = (hex_val(s[i + 4]) * 16 + hex_val(s[i + 5])) as char;
            match sp_str(s, i + 6) {
                Some((t, j)) => Some((seq![c] + t, j)),
                None => None,
            }
        } else {
            None
        }
    } else {
        match sp_str(s, i + 1) {
            Some((t, j)) => Some((seq![s[i]] + t, j)),
            None => None,
        }
    }
}

fn hex_digit_char(d: u8) -> (c: char)
    requires
        d < 16,
    ensures
        c == hex_digit(d as nat),
        is_hex_lower(c),
        hex_val(c) == d as nat,
{
    if d < 10 {
        (d + 48) as char
    } else {
        (d + 87) as char
    }
}

/// Appends the escaped form of `s` to `out`.
pub fn escape_onto(s: &str, out: &mut String)
    ensures
        final(out)@ == old(out)@ + esc(s@),
{
    let n = s.unicode_len();
    let mut i: usize = 0;
    while i < n
        invariant
            i <= n,
            n == s@.len(),
            out@ == old(out)@ + esc(s@.subrange(0, i as int)),
        decreases n - i,
    {
        let c = s.get_char(i);
        let ghost pre = s@.subrange(0, i as int);
        proof {
            lemma_esc_concat(pre, seq![c]);
            assert(s@.subrange(0, i + 1) =~= pre + seq![c]);
            assert(seq![c].drop_first() =~= Seq::<char>::empty());
            assert(esc(Seq::<char>::empty()) =~= Seq::<char>::empty());
            assert(esc(seq![c]) =~= esc_char(c));
        }
        let u = c as u32;
        if c == '"' {
            out.push('\\');
            out.push('"');
            assert(out@ =~= old(out)@ + esc(s@.subrange(0, i + 1)));
        } else if c == '\\' {
            out.push('\\');
            out.push('\\');
            assert(out@ =~= old(out)@ + esc(s@.subrange(0, i + 1)));
        } else if u < 32 {
            out.push('\\');
            out.push('u');
            out.push('0');
            out.push('0');
            out.push(hex_digit_char((u / 16) as u8));
            out.push(hex_digit_char((u % 16) as u8));
            assert(out@ =~= old(out)@ + esc(s@.subrange(0, i + 1)));
        } else {
            out.push(c);
            assert(out@ =~= old(out)@ + esc(s@.subrange(0, i + 1)));
        }
        i = i + 1;
    }
    assert(s@.subrange(0, n as int) =~= s@);
}

fn is_hex_lower_exec(c: char) -> (b: bool)
    ensures
        b == is_hex_lower(c),
{
    let u = c as u32;
    (48 <= u && u <= 57) || (97 <= u && u <= 102)
}

fn char_hex_val(c: char) -> (d: u8)
    requires
        is_hex_lower(c),
    ensures
        d as nat == hex_val(c),
        d < 16,
{
    let u = c as u32;
    if 48 <= u && u <= 57 {
        (u - 48) as u8
    } else {
        (u - 87) as u8
    }
}

/// Reads a quoted string's contents from `s` starting at `i`, as
/// `sp_str` describes.
pub fn parse_string(s: &str, n: usize, i: usize) -> (r: Option<(String, usize)>)
    requires
        n == s@.len(),
        i <= n,
    ensures
        match r {
            Some((t, j)) => sp_str(s@, i as int) == Some((t@, j as int)) && i < j <= n,
            None => sp_str(s@, i as int) is None,
        },
{
    let mut out = String::new();
    let mut k: usize = i;
    loop
        invariant
            i <= k <= n,
            n == s@.len(),
            match sp_str(s@, k as int) {
                Some((t, j)) => sp_str(s@, i as int) == Some((out@ + t, j)),
                None => sp_str(s@, i as int) is None,
            },
        decreases n - k,
    {
        if k == n {
            return None;
        }
        let c = s.get_char(k);
        if c == '"' {
            proof {
                assert(out@ + Seq::<char>::empty() =~= out@);
            }
            return Some((out, k + 1));
        }
        if c == '\\' {
            if k + 1 < n {
                let c2 = s.get_char(k + 1);
                if c2 == '"' || c2 == '\\' {
                    proof {
                        if sp_str(s@, k + 2) is Some {
                            let (t, j) = sp_str(s@, k + 2)->Some_0;
                            assert((out@ + seq![c2]) + t =~= out@ + (seq![c2] + t));
                        }
                    }
                    out.push(c2);
                    k = k + 2;
                    continue ;
                }
                if c2 == 'u' && n - k > 5 {
                    let c3 = s.get_char(k + 2);
                    let c4 = s.get_char(k + 3);
                    let c5 = s.get_char(k + 4);
                    let c6 = s.get_char(k + 5);
                    if c3 == '0' && c4 == '0' && is_hex_lower_exec(c5) && is_hex_lower_exec(c6) {
                        let hi = char_hex_val(c5);
                        let lo = char_hex_val(c6);
                        let v: u8 = hi * 16 + lo;
                        let cu = v as char;
                        proof {
                            assert(cu == (hex_val(s@[k + 4]) * 16 + hex_val(s@[k + 5])) as char);
                            if sp_str(s@, k + 6) is Some {
                                let (t, j) = sp_str(s@, k + 6)->Some_0;
                                assert((out@ + seq![cu]) + t =~= out@ + (seq![cu] + t));
                            }
                        }
                        out.push(cu);
                        k = k + 6;
                        continue ;
                    }
                }
            }
            return None;
        }
        proof {
            if sp_str(s@, k + 1) is Some {
                let (t, j) = sp_str(s@, k + 1)->Some_0;
                assert((out@ + seq![c]) + t =~= out@ + (seq![c] + t));
            }
        }
        out.push(c);
        k = k + 1;
    }
}


/// Expects the exact text `lit` at position `i`: the position after
/// it where it stands there, nothing otherwise.
pub open spec fn sp_lit(s: Seq<char>, i: int, lit: Seq<char>) -> Option<int> {
    if 0 <= i && i + lit.len() <= s.len() && s.subrange(i, i + lit.len()) == lit {
        Some(i + lit.len())
    } else {
        None
    }
}

/// Checks for the exact text `lit` at position `i` of `s`, as
/// `sp_lit` describes.
pub fn expect_lit(s: &str, n: usize, i: usize, lit: &str) -> (r: Option<usize>)
    requires
        n == s@.len(),
        i <= n,
    ensures
        match r {
            Some(j) => sp_lit(s@, i as int, lit@) == Some(j as int) && i <= j <= n,
            None => sp_lit(s@, i as int, lit@) is None,
        },
{
    let m = lit.unicode_len();
    if m > n - i {
        proof {
            assert(sp_lit(s@, i as int, lit@) is None);
        }
        return None;
    }
    let mut k: usize = 0;
    while k < m
        invariant
            k <= m,
            m == lit@.len(),
            n == s@.len(),
            i + m <= n,
            forall|t: int| 0 <= t < k ==> s@[i + t] == lit@[t],
        decreases m - k,
    {
        if s.get_char(i + k) != lit.get_char(k) {
            proof {
                assert(s@.subrange(i as int, i + lit@.len())[k as int] == s@[i + k]);
                assert(sp_lit(s@, i as int, lit@) is None);
            }
            return None;
        }
        k = k + 1;
    }
    proof {
        assert(s@.subrange(i as int, i + lit@.len()) =~= lit@);
    }
    Some(i + m)
}

proof fn lemma_low_char_cast(c: char)
    requires
        (c as int) < 32,
    ensures
        c == (c as nat) as char,
{
}

/// Where the escaped form of `t` stands at `i`, closed by a quote,
/// reading a quoted string at `i` yields `t`.
pub proof fn lemma_parse_str(s: Seq<char>, i: int, t: Seq<char>)
    requires
        0 <= i,
        i + esc(t).len() < s.len(),
        s.subrange(i, i + esc(t).len()) == esc(t),
        s[i + esc(t).len()] == '"',
    ensures
        sp_str(s, i) == Some((t, i + esc(t).len() + 1)),
    decreases t.len(),
{
    if t.len() == 0 {
        assert(esc(t).len() == 0);
        assert(s[i] == '"');
    } else {
        let c = t[0];
        let t2 = t.drop_first();
        assert(t =~= seq![c] + t2);
        lemma_esc_concat(seq![c], t2);
        assert(esc(t) == esc(seq![c]) + esc(t2));
        assert(seq![c].drop_first() =~= Seq::<char>::empty());
        assert(esc(Seq::<char>::empty()) =~= Seq::<char>::empty());
        assert(esc(seq![c]) =~= esc_char(c));
        let ec = esc_char(c);
        let i2 = i + ec.len();
        assert forall|m: int| 0 <= m < ec.len() implies s[i + m] == ec[m] by {
            assert(s[i + m] == s.subrange(i, i + esc(t).len())[m]);
            assert(esc(t)[m] == ec[m]);
        }
        assert(s.subrange(i2, i2 + esc(t2).len()) =~= esc(t2)) by {
            assert forall|m: int| 0 <= m < esc(t2).len() implies s.subrange(
                i2,
                i2 + esc(t2).len(),
            )[m] == esc(t2)[m] by {
                assert(s[i2 + m] == s.subrange(i, i + esc(t).len())[ec.len() + m]);
                assert(esc(t)[ec.len() + m] == esc(t2)[m]);
            }
        }
        lemma_parse_str(s, i2, t2);
        let j = i2 + esc(t2).len() + 1;
        if c == '"' {
            assert(s[i] == '\\' && s[i + 1] == '"');
            assert(sp_str(s, i) == Some((seq![s[i + 1]] + t2, j)));
            assert(seq![s[i + 1]] + t2 =~= t);
        } else if c == '\\' {
            assert(s[i] == '\\' && s[i + 1] == '\\');
            assert(sp_str(s, i) == Some((seq![s[i + 1]] + t2, j)));
            assert(seq![s[i + 1]] + t2 =~= t);
        } else if (c as nat) < 32 {
            assert(s[i] == '\\' && s[i + 1] == 'u' && s[i + 2] == '0' && s[i + 3] == '0');
            let hi = hex_digit((c as nat) / 16);
            let lo = hex_digit((c as nat) % 16);
            assert(s[i + 4] == hi && s[i + 5] == lo);
            assert((c as nat) / 16 < 16 && (c as nat) % 16 < 16);
            assert(is_hex_lower(hi) && hex_val(hi) == (c as nat) / 16);
            assert(is_hex_lower(lo) && hex_val(lo) == (c as nat) % 16);
            assert(hex_val(hi) * 16 + hex_val(lo) == c as nat);
            lemma_low_char_cast(c);
            assert((hex_val(s[i + 4]) * 16 + hex_val(s[i + 5])) as char == c);
            assert(sp_str(s, i) == Some((seq![c] + t2, j)));
            assert(seq![c] + t2 =~= t);
        } else {
            assert(s[i] == c);
            assert(s[i] != '"' && s[i] != '\\');
            assert(sp_str(s, i) == Some((seq![s[i]] + t2, j)));
            assert(seq![s[i]] + t2 =~= t);
        }
    }
}



/// Concatenation keeps each part readable at its place: the left part
/// fills the front, the right part the back, and any range inside the
/// left part reads the same before and after.
pub proof fn lemma_subrange_extend(a: Seq<char>, b: Seq<char>)
    ensures
        (a + b).subrange(0, a.len() as int) == a,
        (a + b).subrange(a.len() as int, (a + b).len() as int) == b,
        forall|x: int, y: int|
            0 <= x <= y <= a.len() ==> #[trigger] (a + b).subrange(x, y) == a.subrange(x, y),
{
    assert((a + b).subrange(0, a.len() as int) =~= a);
    assert((a + b).subrange(a.len() as int, (a + b).len() as int) =~= b);
    assert forall|x: int, y: int| 0 <= x <= y <= a.len() implies #[trigger] (a + b).subrange(x, y)
        == a.subrange(x, y) by {
        assert((a + b).subrange(x, y) =~= a.subrange(x, y));
    }
}


/// The first position at or after `i` where `c` stands, or the length
/// of `s` where it stands nowhere there.
pub open spec fn find_from(s: Seq<char>, i: int, c: char) -> int
    recommends
        0 <= i <= s.len(),
    decreases s.len() - i,
{
    if i < 0 || i >= s.len() {
        s.len() as int
    } else if s[i] == c {
        i
    } else {
        find_from(s, i + 1, c)
    }
}

pub proof fn lemma_find_from(s: Seq<char>, i: int, c: char)
    requires
        0 <= i <= s.len(),
    ensures
        i <= find_from(s, i, c) <= s.len(),
        find_from(s, i, c) < s.len() ==> s[find_from(s, i, c)] == c,
        forall|m: int| i <= m < find_from(s, i, c) ==> s[m] != c,
    decreases s.len() - i,
{
    if i < s.len() && s[i] != c {
        lemma_find_from(s, i + 1, c);
    }
}

/// The last position at or before `i` where `c` stands, or `-1`.
pub open spec fn rfind_from(s: Seq<char>, i: int, c: char) -> int
    recommends
        i < s.len(),
    decreases i + 1,
{
    if i < 0 || i >= s.len() {
        -1
    } else if s[i] == c {
        i
    } else {
        rfind_from(s, i - 1, c)
    }
}

pub proof fn lemma_rfind_from(s: Seq<char>, i: int, c: char)
    requires
        i < s.len(),
    ensures
        -1 <= rfind_from(s, i, c),
        rfind_from(s, i, c) == -1 || rfind_from(s, i, c) <= i,
        rfind_from(s, i, c) >= 0 ==> rfind_from(s, i, c) <= i && s[rfind_from(s, i, c)] == c,
        forall|m: int| rfind_from(s, i, c) < m <= i ==> 0 <= m < s.len() ==> s[m] != c,
    decreases i + 1,
{
    if 0 <= i && s[i] != c {
        lemma_rfind_from(s, i - 1, c);
    }
}

/// Finds the first `c` at or after `i`, as `find_from` describes.
pub fn find_char(s: &str, n: usize, i: usize, c: char) -> (r: Option<usize>)
    requires
        n == s@.len(),
        i <= n,
    ensures
        match r {
            Some(j) => i <= j < n && find_from(s@, i as int, c) == j as int,
            None => find_from(s@, i as int, c) == n as int,
        },
{
    let mut k: usize = i;
    while k < n
        invariant
            i <= k <= n,
            n == s@.len(),
            find_from(s@, i as int, c) == find_from(s@, k as int, c),
        decreases n - k,
    {
        if s.get_char(k) == c {
            return Some(k);
        }
        k = k + 1;
    }
    None
}

/// Finds the last `c` in `s`, as `rfind_from` describes.
pub fn rfind_char(s: &str, n: usize, c: char) -> (r: Option<usize>)
    requires
        n == s@.len(),
    ensures
        match r {
            Some(j) => j < n && rfind_from(s@, n - 1, c) == j as int,
            None => rfind_from(s@, n - 1, c) == -1,
        },
{
    let mut k: usize = n;
    while k > 0
        invariant
            k <= n,
            n == s@.len(),
            k == n || rfind_from(s@, n - 1, c) == rfind_from(s@, k - 1, c),
        decreases k,
    {
        k = k - 1;
        if s.get_char(k) == c {
            return Some(k);
        }
        proof {
            if k > 0 {
                assert(rfind_from(s@, k as int, c) == rfind_from(s@, k - 1, c));
            }
        }
    }
    None
}

/// Whether `prefix` opens `s`.
pub fn str_starts_with(s: &str, n: usize, prefix: &str) -> (b: bool)
    requires
        n == s@.len(),
    ensures
        b == (prefix@.len() <= s@.len() && s@.subrange(0, prefix@.len() as int) == prefix@),
{
    match expect_lit(s, n, 0, prefix) {
        Some(_) => true,
        None => false,
    }
}


/// Whether two texts are the same.
pub fn str_eq(s: &str, t: &str) -> (b: bool)
    ensures
        b == (s@ == t@),
{
    let n = s.unicode_len();
    let m = t.unicode_len();
    if n != m {
        return false;
    }
    match expect_lit(s, n, 0, t) {
        Some(_) => {
            proof {
                assert(s@.subrange(0, n as int) =~= s@);
            }
            true
        },
        None => {
            proof {
                if s@ == t@ {
                    assert(s@.subrange(0, t@.len() as int) =~= t@);
                }
            }
            false
        },
    }
}

/// A whitespace character, as Rust's `char::is_whitespace` has it.
pub open spec fn is_space(c: char) -> bool {
    c == ' ' || c == '\t' || c == '\n' || c == '\u{b}' || c == '\u{c}' || c == '\r' || c
        == '\u{85}' || c == '\u{a0}' || c == '\u{1680}' || ('\u{2000}' <= c && c <= '\u{200a}')
        || c == '\u{2028}' || c == '\u{2029}' || c == '\u{202f}' || c == '\u{205f}' || c
        == '\u{3000}'
}

fn is_space_exec(c: char) -> (b: bool)
    ensures
        b == is_space(c),
{
    let u = c as u32;
    u == 32 || u == 9 || u == 10 || u == 11 || u == 12 || u == 13 || u == 0x85 || u == 0xa0 || u
        == 0x1680 || (0x2000 <= u && u <= 0x200a) || u == 0x2028 || u == 0x2029 || u == 0x202f || u
        == 0x205f || u == 0x3000
}

/// The first position at or after `i` that does not hold whitespace.
pub open spec fn skip_ws(s: Seq<char>, i: int) -> int
    recommends
        0 <= i <= s.len(),
    decreases s.len() - i,
{
    if i < 0 || i >= s.len() {
        s.len() as int
    } else if is_space(s[i]) {
        skip_ws(s, i + 1)
    } else {
        i
    }
}

/// The first position at or after `i` that holds whitespace.
pub open spec fn skip_token(s: Seq<char>, i: int) -> int
    recommends
        0 <= i <= s.len(),
    decreases s.len() - i,
{
    if i < 0 || i >= s.len() {
        s.len() as int
    } else if !is_space(s[i]) {
        skip_token(s, i + 1)
    } else {
        i
    }
}

pub proof fn lemma_skip_bounds(s: Seq<char>, i: int)
    requires
        0 <= i <= s.len(),
    ensures
        i <= skip_ws(s, i) <= s.len(),
        i <= skip_token(s, i) <= s.len(),
        skip_ws(s, i) < s.len() ==> !is_space(s[skip_ws(s, i)]),
        skip_token(s, i) < s.len() ==> is_space(s[skip_token(s, i)]),
    decreases s.len() - i,
{
    if i < s.len() {
        lemma_skip_bounds(s, i + 1);
    }
}

/// Finds the first non-whitespace position, as `skip_ws` describes.
pub fn skip_ws_exec(s: &str, n: usize, i: usize) -> (r: usize)
    requires
        n == s@.len(),
        i <= n,
    ensures
        r as int == skip_ws(s@, i as int),
        i <= r <= n,
{
    let mut k: usize = i;
    while k < n
        invariant
            i <= k <= n,
            n == s@.len(),
            skip_ws(s@, i as int) == skip_ws(s@, k as int),
        decreases n - k,
    {
        if !is_space_exec(s.get_char(k)) {
            return k;
        }
        k = k + 1;
    }
    k
}

/// Finds the first whitespace position, as `skip_token` describes.
pub fn skip_token_exec(s: &str, n: usize, i: usize) -> (r: usize)
    requires
        n == s@.len(),
        i <= n,
    ensures
        r as int == skip_token(s@, i as int),
        i <= r <= n,
{
    let mut k: usize = i;
    while k < n
        invariant
            i <= k <= n,
            n == s@.len(),
            skip_token(s@, i as int) == skip_token(s@, k as int),
        decreases n - k,
    {
        if is_space_exec(s.get_char(k)) {
            return k;
        }
        k = k + 1;
    }
    k
}

/// The decimal notation of a signed number.
pub open spec fn dec_of_int(n: int) -> Seq<char> {
    if n < 0 {
        seq!['-'] + dec_of((-n) as nat)
    } else {
        dec_of(n as nat)
    }
}

/// Formats a signed number in decimal.
pub fn i32_to_dec(n: i32) -> (s: String)
    ensures
        s@ == dec_of_int(n as int),
{
    if n < 0 {
        let mut s = String::new();
        s.append("-");
        let wide: i64 = n as i64;
        let mag: u64 = (-wide) as u64;
        let d = u64_to_dec(mag);
        s.append(d.as_str());
        proof {
            reveal_strlit("-");
            assert(s@ =~= seq!['-'] + dec_of((-(n as int)) as nat));
        }
        s
    } else {
        u64_to_dec(n as u64)
    }
}


/// The smaller of two sizes.
pub fn min_usize(a: usize, b: usize) -> (r: usize)
    ensures
        r == if a < b {
            a as int
        } else {
            b as int
        },
{
    if a < b {
        a
    } else {
        b
    }
}

} // verus!

