//! Plain text helpers over `str` / `String`, specified on `Seq<char>`.

use vstd::prelude::*;

verus! {

/// `s` with every trailing repetition of `pat` removed (as `str::trim_end_matches`
/// does for a non-empty string pattern); an empty pattern removes nothing.
pub open spec fn trim_end_repeated(s: Seq<char>, pat: Seq<char>) -> Seq<char>
    decreases s.len(),
{
    if pat.len() > 0 && pat.len() <= s.len() && s.subrange(s.len() - pat.len(), s.len() as int)
        == pat {
        trim_end_repeated(s.subrange(0, s.len() - pat.len()), pat)
    } else {
        s
    }
}

/// Whether `s` ends with `pat`.
pub open spec fn ends_with(s: Seq<char>, pat: Seq<char>) -> bool {
    pat.len() <= s.len() && s.subrange(s.len() - pat.len(), s.len() as int) == pat
}

/// Whether the characters `s[start..start + pat.len()]` are those of `pat`.
fn matches_at(s: &str, start: usize, pat: &str) -> (res: bool)
    requires
        start + pat@.len() <= s@.len(),
    ensures
        res == (s@.subrange(start as int, start + pat@.len()) == pat@),
{
    let n = s.unicode_len();
    let m = pat.unicode_len();
    let mut i: usize = 0;
    while i < m
        invariant
            m == pat@.len(),
            n == s@.len(),
            start + m <= n,
            i <= m,
            forall|j: int| 0 <= j < i ==> s@[start + j] == pat@[j],
        decreases m - i,
    {
        if s.get_char(start + i) != pat.get_char(i) {
            assert(s@.subrange(start as int, start + m)[i as int] != pat@[i as int]);
            return false;
        }
        i = i + 1;
    }
    assert(s@.subrange(start as int, start + m) =~= pat@);
    true
}

/// Whether two strings hold the same characters.
pub fn same_text(a: &str, b: &str) -> (res: bool)
    ensures
        res == (a@ == b@),
{
    let n = a.unicode_len();
    let m = b.unicode_len();
    if n != m {
        return false;
    }
    let r = matches_at(a, 0, b);
    assert(a@.subrange(0, n as int) =~= a@);
    r
}

/// `s` with every trailing repetition of `pat` removed.
pub fn trim_end_matching(s: &str, pat: &str) -> (res: String)
    ensures
        res@ == trim_end_repeated(s@, pat@),
{
    let n = s.unicode_len();
    let m = pat.unicode_len();
    let mut end: usize = n;
    assert(s@.subrange(0, n as int) =~= s@);
    if m > 0 {
        loop
            invariant
                m == pat@.len(),
                m > 0,
                n == s@.len(),
                end <= n,
                trim_end_repeated(s@.subrange(0, end as int), pat@) == trim_end_repeated(s@, pat@),
            ensures
                end <= n,
                trim_end_repeated(s@.subrange(0, end as int), pat@) == trim_end_repeated(s@, pat@),
                trim_end_repeated(s@.subrange(0, end as int), pat@) == s@.subrange(0, end as int),
            decreases end,
        {
            let ghost prefix = s@.subrange(0, end as int);
            if end < m {
                break;
            }
            let hit = matches_at(s, end - m, pat);
            assert(prefix.subrange(prefix.len() - m, prefix.len() as int) =~= s@.subrange(
                end - m,
                end as int,
            ));
            if !hit {
                break;
            }
            assert(prefix.subrange(0, prefix.len() - m) =~= s@.subrange(0, end - m));
            end = end - m;
        }
    }
    assert(trim_end_repeated(s@.subrange(0, end as int), pat@) == s@.subrange(0, end as int));
    s.substring_char(0, end).to_owned()
}

/// `a` followed by `b`.
pub fn joined(a: &str, b: &str) -> (res: String)
    ensures
        res@ == a@ + b@,
{
    let mut r = a.to_owned();
    r.append(b);
    r
}


/// Trimming never leaves the pattern at the end, and only removes a suffix.
pub proof fn lemma_trim_end_repeated(s: Seq<char>, pat: Seq<char>)
    ensures
        pat.len() > 0 ==> !ends_with(trim_end_repeated(s, pat), pat),
        trim_end_repeated(s, pat).len() <= s.len(),
        trim_end_repeated(s, pat) == s.take(trim_end_repeated(s, pat).len() as int),
    decreases s.len(),
{
    if pat.len() > 0 && pat.len() <= s.len() && s.subrange(s.len() - pat.len(), s.len() as int)
        == pat {
        let shorter = s.subrange(0, s.len() - pat.len());
        lemma_trim_end_repeated(shorter, pat);
        let t = trim_end_repeated(shorter, pat);
        assert(t =~= s.take(t.len() as int));
    } else {
        assert(s.take(s.len() as int) =~= s);
    }
}

/// Trimming `pre + x` keeps all of `pre` when the last character of `pre`
/// does not occur in the pattern.
pub proof fn lemma_trim_keeps_prefix(pre: Seq<char>, x: Seq<char>, pat: Seq<char>)
    requires
        pre.len() > 0,
        forall|i: int| 0 <= i < pat.len() ==> pat[i] != pre.last(),
    ensures
        trim_end_repeated(pre + x, pat).len() >= pre.len(),
        trim_end_repeated(pre + x, pat).take(pre.len() as int) == pre,
    decreases x.len(),
{
    let s = pre + x;
    if pat.len() > 0 && pat.len() <= s.len() && s.subrange(s.len() - pat.len(), s.len() as int)
        == pat {
        if pat.len() <= x.len() {
            let x2 = x.take(x.len() - pat.len());
            assert(s.subrange(0, s.len() - pat.len()) =~= pre + x2);
            lemma_trim_keeps_prefix(pre, x2, pat);
        } else {
            let q = pre.len() - 1;
            let start = s.len() - pat.len();
            assert(s.subrange(start, s.len() as int)[q - start] == s[q]);
            assert(false);
        }
    } else {
        assert(s.take(pre.len() as int) =~= pre);
    }
}


/// Trimming is fixed by two facts: a text that does not end with the pattern
/// is kept whole, and one more copy of the pattern at the end is removed like
/// the rest. So a text `t + pat + ... + pat`, where `t` does not end with the
/// pattern, trims to `t`. An empty pattern removes nothing.
pub proof fn trim_end_repeated_law(t: Seq<char>, pat: Seq<char>)
    ensures
        !ends_with(t, pat) ==> trim_end_repeated(t, pat) == t,
        pat.len() > 0 ==> trim_end_repeated(t + pat, pat) == trim_end_repeated(t, pat),
        pat.len() == 0 ==> trim_end_repeated(t, pat) == t,
{
    if pat.len() > 0 {
        let s = t + pat;
        assert(s.subrange(s.len() - pat.len(), s.len() as int) =~= pat);
        assert(s.subrange(0, s.len() - pat.len()) =~= t);
    }
}

} // verus!
