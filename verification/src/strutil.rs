//! Verified helpers over strings viewed as sequences of characters:
//! equality, substring search, whitespace splitting and `%s`
//! substitution, plus the few trusted facts about Unicode case
//! folding and the Unicode whitespace property that the matching
//! engine relies on.

use vstd::prelude::*;

verus! {

/// The sequence of characters that `str::to_lowercase` yields for `s`.
pub uninterp spec fn lower_chars(s: Seq<char>) -> Seq<char>;

/// The sequence of characters that `str::to_uppercase` yields for `s`.
pub uninterp spec fn upper_chars(s: Seq<char>) -> Seq<char>;

/// Whether `char::is_whitespace` holds of `c` (the Unicode
/// `White_Space` property).
pub uninterp spec fn is_space(c: char) -> bool;

/// Relies on str::to_lowercase: the result is a function of the
/// characters of `s` alone.
#[verifier::external_body]
pub fn lowercase(s: &str) -> (r: String)
    ensures
        r@ == lower_chars(s@),
{
    s.to_lowercase()
}

/// Relies on str::to_uppercase: the result is a function of the
/// characters of `s` alone.
#[verifier::external_body]
pub fn uppercase(s: &str) -> (r: String)
    ensures
        r@ == upper_chars(s@),
{
    s.to_uppercase()
}

/// Relies on char::is_whitespace: whether `c` has the Unicode
/// `White_Space` property, a function of `c` alone.
#[verifier::external_body]
pub fn char_is_space(c: char) -> (r: bool)
    ensures
        r == is_space(c),
{
    c.is_whitespace()
}

/// The case adjustment applied before comparisons: uppercase both
/// sides for a case-insensitive match, leave them alone for a
/// literal one.
pub open spec fn cased(insensitive: bool, s: Seq<char>) -> Seq<char> {
    if insensitive {
        upper_chars(s)
    } else {
        s
    }
}

/// The percent-encoding of `s`, as the `urlencoding` crate computes
/// it.
pub uninterp spec fn percent_encoded(s: Seq<char>) -> Seq<char>;

/// Relies on urlencoding::encode: percent-encodes every byte except
/// ASCII alphanumerics and `-`, `.`, `_`, `~`, a function of the
/// string alone.
#[verifier::external_body]
pub fn percent_encode(s: &str) -> (r: String)
    ensures
        r@ == percent_encoded(s@),
{
    urlencoding::encode(s).into_owned()
}

/// Character-for-character string equality.
pub fn str_eq(a: &str, b: &str) -> (r: bool)
    ensures
        r == (a@ == b@),
{
    let na = a.unicode_len();
    let nb = b.unicode_len();
    if na != nb {
        assert(a@ != b@) by {
            assert(a@.len() != b@.len());
        }
        return false;
    }
    let mut i: usize = 0;
    while i < na
        invariant
            na == a@.len(),
            na == b@.len(),
            0 <= i <= na,
            forall|k: int| 0 <= k < i ==> a@[k] == b@[k],
        decreases na - i,
    {
        if a.get_char(i) != b.get_char(i) {
            return false;
        }
        i += 1;
    }
    proof {
        assert(a@ =~= b@);
    }
    true
}

/// `needle` occurs in `hay` starting at position `at`.
pub open spec fn matches_at(hay: Seq<char>, needle: Seq<char>, at: int) -> bool {
    0 <= at && at + needle.len() <= hay.len() && hay.subrange(
        at,
        at + needle.len(),
    ) == needle
}

/// `needle` is a (contiguous) substring of `hay`.
pub open spec fn contains_seq(hay: Seq<char>, needle: Seq<char>) -> bool {
    exists|at: int| matches_at(hay, needle, at)
}

/// `hay` starts with `needle`.
pub open spec fn starts_with_seq(hay: Seq<char>, needle: Seq<char>) -> bool {
    matches_at(hay, needle, 0)
}

/// Whether `needle` occurs in `hay` at position `at` (both borrowed
/// as whole strings).
fn str_matches_at(hay: &str, needle: &str, at: usize, hn: usize, nn: usize) -> (r: bool)
    requires
        hn == hay@.len(),
        nn == needle@.len(),
        at + nn <= hn,
    ensures
        r == matches_at(hay@, needle@, at as int),
{
    let mut k: usize = 0;
    while k < nn
        invariant
            hn == hay@.len(),
            nn == needle@.len(),
            at + nn <= hn,
            0 <= k <= nn,
            forall|j: int| 0 <= j < k ==> hay@[at + j] == needle@[j],
        decreases nn - k,
    {
        if hay.get_char(at + k) != needle.get_char(k) {
            assert(!matches_at(hay@, needle@, at as int)) by {
                assert(hay@.subrange(at as int, at + nn)[k as int] == hay@[at + k]);
            }
            return false;
        }
        k += 1;
    }
    proof {
        assert(hay@.subrange(at as int, at + nn) =~= needle@);
    }
    true
}

/// Substring search.
pub fn str_contains(hay: &str, needle: &str) -> (r: bool)
    ensures
        r == contains_seq(hay@, needle@),
{
    let hn = hay.unicode_len();
    let nn = needle.unicode_len();
    if nn > hn {
        return false;
    }
    let mut at: usize = 0;
    loop
        invariant
            hn == hay@.len(),
            nn == needle@.len(),
            nn <= hn,
            0 <= at <= hn - nn,
            forall|p: int| 0 <= p < at ==> !matches_at(hay@, needle@, p),
        decreases hn - nn - at,
    {
        if str_matches_at(hay, needle, at, hn, nn) {
            return true;
        }
        if at == hn - nn {
            assert(forall|p: int| matches_at(hay@, needle@, p) ==> 0 <= p <= hn - nn);
            return false;
        }
        at += 1;
    }
}

/// Prefix test.
pub fn str_starts_with(hay: &str, needle: &str) -> (r: bool)
    ensures
        r == starts_with_seq(hay@, needle@),
{
    let hn = hay.unicode_len();
    let nn = needle.unicode_len();
    if nn > hn {
        return false;
    }
    str_matches_at(hay, needle, 0, hn, nn)
}

/// Length of the run of non-whitespace characters at the front of `s`.
pub open spec fn word_len(s: Seq<char>) -> int
    decreases s.len(),
{
    if s.len() == 0 || is_space(s[0]) {
        0
    } else {
        1 + word_len(s.drop_first())
    }
}

pub proof fn lemma_word_len_bounds(s: Seq<char>)
    ensures
        0 <= word_len(s) <= s.len(),
        s.len() > 0 && !is_space(s[0]) ==> 1 <= word_len(s),
    decreases s.len(),
{
    if s.len() == 0 || is_space(s[0]) {
    } else {
        lemma_word_len_bounds(s.drop_first());
    }
}

#[via_fn]
proof fn split_ws_decreases(s: Seq<char>) {
    lemma_word_len_bounds(s);
}

/// The whitespace-separated words of `s`, in order: what
/// `str::split_whitespace` yields, stated over the Unicode
/// `White_Space` property.
pub open spec fn split_ws(s: Seq<char>) -> Seq<Seq<char>>
    decreases s.len(),
        via split_ws_decreases
{
    if s.len() == 0 {
        Seq::empty()
    } else if is_space(s[0]) {
        split_ws(s.drop_first())
    } else {
        seq![s.take(word_len(s))] + split_ws(s.skip(word_len(s)))
    }
}

/// A run of `m` non-whitespace characters ended by whitespace (or by
/// the end of the sequence) is exactly the leading word.
pub proof fn lemma_word_len_of_run(s: Seq<char>, m: int)
    requires
        0 <= m <= s.len(),
        forall|k: int| 0 <= k < m ==> !is_space(s[k]),
        m == s.len() || is_space(s[m]),
    ensures
        word_len(s) == m,
    decreases m,
{
    if m == 0 {
    } else {
        assert(!is_space(s[0]));
        lemma_word_len_of_run(s.drop_first(), m - 1);
    }
}

/// Splits `s` on Unicode whitespace, exactly as `split_ws` describes.
#[verifier::loop_isolation(false)]
pub fn split_whitespace(s: &str) -> (r: Vec<String>)
    ensures
        r.deep_view() == split_ws(s@),
{
    let n = s.unicode_len();
    let mut out: Vec<String> = Vec::new();
    let mut i: usize = 0;
    proof {
        assert(s@.skip(0) =~= s@);
        assert(out.deep_view() =~~= Seq::<Seq<char>>::empty());
    }
    while i < n
        invariant
            0 <= i <= n,
            out.deep_view() + split_ws(s@.skip(i as int)) =~~= split_ws(s@),
        decreases n - i,
    {
        let c = s.get_char(i);
        if char_is_space(c) {
            proof {
                assert(s@.skip(i as int).drop_first() =~= s@.skip(i + 1));
            }
            i += 1;
        } else {
            let start = i;
            let mut j = i + 1;
            while j < n && !char_is_space(s.get_char(j))
                invariant
                    start < j <= n,
                    forall|k: int| start <= k < j ==> !is_space(s@[k]),
                decreases n - j,
            {
                j += 1;
            }
            assert(j == n || is_space(s@[j as int]));
            let word = s.substring_char(start, j).to_owned();
            proof {
                let rest = s@.skip(start as int);
                assert(forall|k: int|
                    0 <= k < j - start ==> rest[k] == s@[start + k] && !is_space(rest[k]));
                assert(j - start == rest.len() || is_space(rest[j - start]));
                lemma_word_len_of_run(rest, j - start);
                assert(rest.take(j - start) =~= s@.subrange(start as int, j as int));
                assert(rest.skip(j - start) =~= s@.skip(j as int));
                assert(split_ws(rest) == seq![word@] + split_ws(s@.skip(j as int)));
            }
            out.push(word);
            proof {
                assert(out.deep_view() + split_ws(s@.skip(j as int)) =~~= split_ws(s@));
            }
            i = j;
        }
    }
    proof {
        assert(s@.skip(n as int) =~= Seq::<char>::empty());
        assert(out.deep_view() =~~= split_ws(s@));
    }
    out
}

/// `%s` substitution as the formatter performs it, scanning left to
/// right: `%%` yields a literal `%`, `%s` yields `param`, and every
/// other character is copied.
pub open spec fn subst_param(fmt: Seq<char>, param: Seq<char>) -> Seq<char>
    decreases fmt.len(),
{
    if fmt.len() == 0 {
        Seq::empty()
    } else if fmt.len() >= 2 && fmt[0] == '%' && fmt[1] == '%' {
        seq!['%'] + subst_param(fmt.skip(2), param)
    } else if fmt.len() >= 2 && fmt[0] == '%' && fmt[1] == 's' {
        param + subst_param(fmt.skip(2), param)
    } else {
        seq![fmt[0]] + subst_param(fmt.skip(1), param)
    }
}

/// Substitutes `param` for each `%s` occurrence in `fmt`, where `%%`
/// escapes a literal `%`.
#[verifier::loop_isolation(false)]
pub fn format_param(fmt: &str, param: &str) -> (r: String)
    ensures
        r@ == subst_param(fmt@, param@),
{
    let n = fmt.unicode_len();
    let mut out = String::new();
    let mut i: usize = 0;
    proof {
        assert(fmt@.skip(0) =~= fmt@);
        assert(out@ + subst_param(fmt@, param@) =~= subst_param(fmt@, param@));
    }
    while i < n
        invariant
            0 <= i <= n,
            out@ + subst_param(fmt@.skip(i as int), param@) =~= subst_param(fmt@, param@),
        decreases n - i,
    {
        let c = fmt.get_char(i);
        proof {
            let rest = fmt@.skip(i as int);
            assert(rest[0] == fmt@[i as int]);
            if i + 1 < n {
                assert(rest[1] == fmt@[i + 1]);
            }
            assert(rest.skip(1) =~= fmt@.skip(i + 1));
            if i + 2 <= n {
                assert(rest.skip(2) =~= fmt@.skip(i + 2));
            }
        }
        if c == '%' && i + 1 < n {
            let c2 = fmt.get_char(i + 1);
            if c2 == '%' {
                out.append("%");
                proof {
                    reveal_strlit("%");
                    assert("%"@ =~= seq!['%']);
                    assert(out@ + subst_param(fmt@.skip(i + 2), param@) =~= subst_param(
                        fmt@,
                        param@,
                    ));
                }
                i += 2;
                continue;
            }
            if c2 == 's' {
                out.append(param);
                proof {
                    assert(out@ + subst_param(fmt@.skip(i + 2), param@) =~= subst_param(
                        fmt@,
                        param@,
                    ));
                }
                i += 2;
                continue;
            }
        }
        let piece = fmt.substring_char(i, i + 1);
        proof {
            assert(piece@ =~= seq![fmt@[i as int]]);
        }
        out.append(piece);
        i += 1;
    }
    proof {
        assert(fmt@.skip(n as int) =~= Seq::<char>::empty());
        assert(out@ =~= subst_param(fmt@, param@));
    }
    out
}

} // verus!
