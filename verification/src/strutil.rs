//! Verified text helpers used by the router and the URL builders:
//! ASCII lower-casing, whitespace tokenization, joining tokens with single
//! spaces, pattern replacement, and decimal rendering of integers.

use vstd::prelude::*;
use vstd::string::StrSliceExecFns;
use vstd::string::StringExecFns;

verus! {

/// Relies on `alloc::string::String::push`: appends exactly the given
/// character at the end of the string.
pub assume_specification[ String::push ](s: &mut String, ch: char)
    ensures
        final(s)@ == old(s)@.push(ch),
;

/// The characters that separate chat-message tokens: the Unicode
/// white-space set (the `White_Space` property).
pub open spec fn is_space_char(c: char) -> bool {
    let u = c as u32;
    ||| (9 <= u && u <= 13)
    ||| u == 32
    ||| u == 0x85
    ||| u == 0xA0
    ||| u == 0x1680
    ||| (0x2000 <= u && u <= 0x200A)
    ||| u == 0x2028
    ||| u == 0x2029
    ||| u == 0x202F
    ||| u == 0x205F
    ||| u == 0x3000
}

/// Whether `c` separates tokens.
pub fn is_space(c: char) -> (b: bool)
    ensures
        b == is_space_char(c),
{
    let u = c as u32;
    (9 <= u && u <= 13) || u == 32 || u == 0x85 || u == 0xA0 || u == 0x1680 || (0x2000 <= u && u
        <= 0x200A) || u == 0x2028 || u == 0x2029 || u == 0x202F || u == 0x205F || u == 0x3000
}

/// What the Unicode lower-casing of a character sequence is; a function of
/// the characters alone.
pub uninterp spec fn lower_of(s: Seq<char>) -> Seq<char>;

/// Relies on `str::to_lowercase`: the Unicode lower-case form of the
/// string, determined by its characters alone.
#[verifier::external_body]
pub(crate) fn unicode_lowercase(s: &str) -> (r: String)
    ensures
        r@ == lower_of(s@),
{
    s.to_lowercase()
}

/// Length of the token starting at the head of `s`: the number of characters
/// before the first whitespace character (0 if `s` is empty or starts with
/// whitespace).
pub open spec fn token_len(s: Seq<char>) -> nat
    decreases s.len(),
{
    if s.len() == 0 || is_space_char(s[0]) {
        0
    } else {
        1 + token_len(s.skip(1))
    }
}

pub proof fn lemma_token_len_le(s: Seq<char>)
    ensures
        token_len(s) <= s.len(),
    decreases s.len(),
{
    if s.len() != 0 && !is_space_char(s[0]) {
        lemma_token_len_le(s.skip(1));
    }
}

/// If the first `k` characters of `s` are not whitespace and position `k`
/// is the end of `s` or whitespace, then the head token has length `k`.
pub proof fn lemma_token_len_is(s: Seq<char>, k: int)
    requires
        0 <= k <= s.len(),
        forall|j: int| 0 <= j < k ==> !is_space_char(#[trigger] s[j]),
        k == s.len() || is_space_char(s[k]),
    ensures
        token_len(s) == k,
    decreases k,
{
    if k == 0 {
    } else {
        assert(!is_space_char(s[0]));
        lemma_token_len_is(s.skip(1), k - 1);
    }
}

/// The whitespace-separated tokens of `s`, in order, each non-empty.
pub open spec fn split_ws(s: Seq<char>) -> Seq<Seq<char>>
    decreases s.len(),
    via split_ws_decreases
{
    if s.len() == 0 {
        Seq::empty()
    } else if is_space_char(s[0]) {
        split_ws(s.skip(1))
    } else {
        seq![s.take(token_len(s) as int)] + split_ws(s.skip(token_len(s) as int))
    }
}

#[via_fn]
proof fn split_ws_decreases(s: Seq<char>) {
    if s.len() != 0 && !is_space_char(s[0]) {
        lemma_token_len_le(s);
    }
}

/// The tokens joined back together with a single space between neighbours.
pub open spec fn join_sp(ts: Seq<Seq<char>>) -> Seq<char>
    decreases ts.len(),
{
    if ts.len() == 0 {
        Seq::empty()
    } else if ts.len() == 1 {
        ts[0]
    } else {
        ts[0] + seq![' '] + join_sp(ts.skip(1))
    }
}

/// Appending one token to a join: a single separating space appears exactly
/// when the join was non-trivial before.
pub proof fn lemma_join_sp_push(ts: Seq<Seq<char>>, t: Seq<char>)
    ensures
        ts.len() == 0 ==> join_sp(ts.push(t)) == t,
        ts.len() > 0 ==> join_sp(ts.push(t)) == join_sp(ts) + seq![' '] + t,
    decreases ts.len(),
{
    if ts.len() == 0 {
        assert(ts.push(t)[0] == t);
        assert(join_sp(ts.push(t)) == t);
    } else if ts.len() == 1 {
        let p = ts.push(t);
        assert(p.len() == 2);
        assert(p[0] == ts[0]);
        assert(p.skip(1) =~= seq![t]);
        assert(join_sp(p.skip(1)) == t);
    } else {
        lemma_join_sp_push(ts.skip(1), t);
        let p = ts.push(t);
        assert(p.skip(1) =~= ts.skip(1).push(t));
        assert(p[0] == ts[0]);
    }
}

/// Splits `s` into its whitespace-separated tokens.
pub fn split_whitespace_tokens(s: &str) -> (r: Vec<String>)
    ensures
        r.deep_view() == split_ws(s@),
{
    let n = s.unicode_len();
    let mut out: Vec<String> = Vec::new();
    let mut i: usize = 0;
    proof {
        assert(s@.skip(0) =~= s@);
        assert(out.deep_view() =~= Seq::<Seq<char>>::empty());
        assert(out.deep_view() + split_ws(s@) =~= split_ws(s@));
    }
    while i < n
        invariant
            i <= n,
            n == s@.len(),
            split_ws(s@) == out.deep_view() + split_ws(s@.skip(i as int)),
        decreases n - i,
    {
        let c = s.get_char(i);
        if is_space(c) {
            proof {
                assert(s@.skip(i as int).skip(1) =~= s@.skip(i + 1));
            }
            i = i + 1;
        } else {
            let start = i;
            i = i + 1;
            while i < n && !is_space(s.get_char(i))
                invariant
                    start < i <= n,
                    n == s@.len(),
                    forall|j: int| start <= j < i ==> !is_space_char(#[trigger] s@[j]),
                decreases n - i,
            {
                i = i + 1;
            }
            let tok = s.substring_char(start, i);
            proof {
                let rest = s@.skip(start as int);
                assert forall|j: int| 0 <= j < i - start implies !is_space_char(#[trigger] rest[j]) by {
                    assert(rest[j] == s@[start + j]);
                }
                if i < n {
                    assert(is_space_char(rest[i - start]));
                }
                lemma_token_len_is(rest, i - start);
                assert(rest.take(i - start) =~= s@.subrange(start as int, i as int));
                assert(rest.skip(i - start) =~= s@.skip(i as int));
                assert(split_ws(rest) == seq![s@.subrange(start as int, i as int)] + split_ws(
                    s@.skip(i as int),
                ));
            }
            let ghost old_dv = out.deep_view();
            out.push(tok.to_owned());
            proof {
                assert(out.deep_view() =~= old_dv.push(s@.subrange(start as int, i as int)));
                assert(out.deep_view() + split_ws(s@.skip(i as int)) =~= old_dv + (seq![
                    s@.subrange(start as int, i as int),
                ] + split_ws(s@.skip(i as int))));
            }
        }
    }
    proof {
        assert(s@.skip(n as int) =~= Seq::<char>::empty());
        assert(out.deep_view() + split_ws(s@.skip(n as int)) =~= out.deep_view());
    }
    out
}

/// Joins `ts[from..]` with single spaces.
pub fn join_tokens_from(ts: &Vec<String>, from: usize) -> (r: String)
    requires
        from <= ts@.len(),
    ensures
        r@ == join_sp(ts.deep_view().skip(from as int)),
{
    let mut r = String::new();
    let mut k = from;
    while k < ts.len()
        invariant
            from <= k <= ts@.len(),
            ts.deep_view().len() == ts@.len(),
            r@ == join_sp(ts.deep_view().subrange(from as int, k as int)),
        decreases ts@.len() - k,
    {
        let ghost done = ts.deep_view().subrange(from as int, k as int);
        if k > from {
            r.push(' ');
        }
        r.append(ts[k].as_str());
        proof {
            assert(ts.deep_view().subrange(from as int, k + 1) =~= done.push(
                ts.deep_view()[k as int],
            ));
            lemma_join_sp_push(done, ts.deep_view()[k as int]);
            if k > from {
                assert(r@ =~= join_sp(done) + seq![' '] + ts.deep_view()[k as int]);
            } else {
                assert(done.len() == 0);
                assert(r@ =~= ts.deep_view()[k as int]);
            }
        }
        k = k + 1;
    }
    proof {
        assert(ts.deep_view().subrange(from as int, ts.deep_view().len() as int) =~= ts.deep_view()
            .skip(from as int));
    }
    r
}

/// `s` with every non-overlapping occurrence of `pat` replaced by `rep`,
/// scanning left to right. If `pat` is empty or longer than the remaining
/// text, the remainder is kept unchanged.
pub open spec fn spec_replace_all(s: Seq<char>, pat: Seq<char>, rep: Seq<char>) -> Seq<char>
    decreases s.len(),
{
    if pat.len() == 0 || s.len() < pat.len() {
        s
    } else if s.take(pat.len() as int) == pat {
        rep + spec_replace_all(s.skip(pat.len() as int), pat, rep)
    } else {
        seq![s[0]] + spec_replace_all(s.skip(1), pat, rep)
    }
}

/// Whether `pat` occurs in `s` starting at position `i`.
fn window_matches(s: &str, i: usize, pat: &str) -> (b: bool)
    requires
        i + pat@.len() <= s@.len(),
    ensures
        b == (s@.subrange(i as int, i + pat@.len()) == pat@),
{
    let n = s.unicode_len();
    let plen = pat.unicode_len();
    let mut j: usize = 0;
    while j < plen
        invariant
            j <= plen,
            plen == pat@.len(),
            n == s@.len(),
            i + plen <= n,
            forall|j2: int| 0 <= j2 < j ==> s@[i + j2] == pat@[j2],
        decreases plen - j,
    {
        if s.get_char(i + j) != pat.get_char(j) {
            proof {
                assert(s@.subrange(i as int, i + pat@.len())[j as int] != pat@[j as int]);
            }
            return false;
        }
        j = j + 1;
    }
    proof {
        assert(s@.subrange(i as int, i + pat@.len()) =~= pat@);
    }
    true
}

/// Replaces every occurrence of `pat` in `s` by `rep`, scanning left to
/// right without overlap.
pub fn replace_all(s: &str, pat: &str, rep: &str) -> (r: String)
    ensures
        r@ == spec_replace_all(s@, pat@, rep@),
{
    let n = s.unicode_len();
    let plen = pat.unicode_len();
    let mut r = String::new();
    if plen == 0 {
        r.append(s);
        return r;
    }
    let mut i: usize = 0;
    proof {
        assert(s@.skip(0) =~= s@);
        assert(r@ + spec_replace_all(s@, pat@, rep@) =~= spec_replace_all(s@, pat@, rep@));
    }
    while i < n
        invariant
            i <= n,
            n == s@.len(),
            plen == pat@.len(),
            plen > 0,
            spec_replace_all(s@, pat@, rep@) == r@ + spec_replace_all(
                s@.skip(i as int),
                pat@,
                rep@,
            ),
        decreases n - i,
    {
        let ghost rest = s@.skip(i as int);
        if plen <= n - i && window_matches(s, i, pat) {
            proof {
                assert(rest.take(plen as int) =~= s@.subrange(i as int, i + plen));
                assert(rest.skip(plen as int) =~= s@.skip(i + plen));
            }
            r.append(rep);
            i = i + plen;
        } else {
            proof {
                if i + plen <= n {
                    assert(rest.take(plen as int) =~= s@.subrange(i as int, i + plen));
                }
                assert(rest.skip(1) =~= s@.skip(i + 1));
                assert(rest[0] == s@[i as int]);
            }
            r.push(s.get_char(i));
            i = i + 1;
        }
    }
    proof {
        assert(s@.skip(n as int) =~= Seq::<char>::empty());
        assert(r@ + spec_replace_all(s@.skip(n as int), pat@, rep@) =~= r@);
    }
    r
}

/// Character-wise string equality.
pub fn str_eq(a: &str, b: &str) -> (r: bool)
    ensures
        r == (a@ == b@),
{
    let na = a.unicode_len();
    let nb = b.unicode_len();
    if na != nb {
        return false;
    }
    let mut j: usize = 0;
    while j < na
        invariant
            j <= na,
            na == a@.len(),
            na == b@.len(),
            forall|j2: int| 0 <= j2 < j ==> a@[j2] == b@[j2],
        decreases na - j,
    {
        if a.get_char(j) != b.get_char(j) {
            return false;
        }
        j = j + 1;
    }
    proof {
        assert(a@ =~= b@);
    }
    true
}

/// The decimal digit character for `d`.
pub open spec fn digit_char(d: int) -> char {
    ((d + 48) as u8) as char
}

/// The decimal rendering of `n`, most significant digit first, no leading
/// zeros (a single `'0'` for zero).
pub open spec fn dec_str(n: nat) -> Seq<char>
    decreases n,
{
    if n < 10 {
        seq![digit_char(n as int)]
    } else {
        dec_str(n / 10).push(digit_char((n % 10) as int))
    }
}

/// Renders `n` in decimal.
pub fn u64_to_string(n: u64) -> (r: String)
    ensures
        r@ == dec_str(n as nat),
    decreases n,
{
    if n < 10 {
        let mut r = String::new();
        r.push(((n as u8) + 48) as char);
        proof {
            assert(r@ =~= seq![digit_char(n as int)]);
        }
        r
    } else {
        let mut r = u64_to_string(n / 10);
        r.push((((n % 10) as u8) + 48) as char);
        r
    }
}

} // verus!
