//! Verified text utilities: character-level conversion, leftmost
//! non-overlapping replacement, substring search and prefix tests.
//!
//! All executable functions are specified against `Seq<char>` models.

use vstd::prelude::*;

verus! {

/// `pat` occurs in `s` at position `i`.
pub open spec fn match_at(s: Seq<char>, pat: Seq<char>, i: int) -> bool {
    &&& 0 <= i
    &&& i + pat.len() <= s.len()
    &&& s.subrange(i, i + pat.len() as int) == pat
}

/// `pat` occurs somewhere in `s`.
pub open spec fn contains_seq(s: Seq<char>, pat: Seq<char>) -> bool {
    exists|i: int| match_at(s, pat, i)
}

/// `s` starts with `pat`.
pub open spec fn starts_with_seq(s: Seq<char>, pat: Seq<char>) -> bool {
    pat.len() <= s.len() && s.take(pat.len() as int) == pat
}

/// `s` with every leftmost, non-overlapping occurrence of `pat` replaced by
/// `val`, scanning left to right; occurrences introduced by `val` itself are
/// not replaced again.
pub open spec fn replaced(s: Seq<char>, pat: Seq<char>, val: Seq<char>) -> Seq<char>
    recommends
        pat.len() > 0,
    decreases s.len(),
{
    if pat.len() == 0 || s.len() < pat.len() {
        s
    } else if s.take(pat.len() as int) == pat {
        val + replaced(s.skip(pat.len() as int), pat, val)
    } else {
        seq![s[0]] + replaced(s.skip(1), pat, val)
    }
}

/// A string without any occurrence of the pattern is left verbatim.
pub proof fn lemma_replaced_untouched(s: Seq<char>, pat: Seq<char>, val: Seq<char>)
    requires
        pat.len() > 0,
        !contains_seq(s, pat),
    ensures
        replaced(s, pat, val) == s,
    decreases s.len(),
{
    if s.len() < pat.len() {
    } else {
        assert(s.take(pat.len() as int) =~= s.subrange(0, pat.len() as int));
        assert(!match_at(s, pat, 0));
        assert(!contains_seq(s.skip(1), pat)) by {
            assert forall|i: int| !match_at(s.skip(1), pat, i) by {
                if 0 <= i && i + pat.len() <= s.skip(1).len() {
                    assert(s.skip(1).subrange(i, i + pat.len() as int) =~= s.subrange(
                        i + 1,
                        i + 1 + pat.len() as int,
                    ));
                    assert(!match_at(s, pat, i + 1));
                }
            }
        }
        lemma_replaced_untouched(s.skip(1), pat, val);
        assert(seq![s[0]] + s.skip(1) =~= s);
    }
}

/// An occurrence of the pattern at the very front is rewritten to the
/// replacement, and scanning continues after it.
pub proof fn lemma_replaced_head_match(s: Seq<char>, pat: Seq<char>, val: Seq<char>)
    requires
        pat.len() > 0,
        match_at(s, pat, 0),
    ensures
        replaced(s, pat, val) == val + replaced(s.skip(pat.len() as int), pat, val),
{
    assert(s.take(pat.len() as int) =~= s.subrange(0, pat.len() as int));
}

/// An occurrence in the right part of a concatenation, shifted by the left
/// part's length.
pub proof fn lemma_match_in_concat(a: Seq<char>, b: Seq<char>, pat: Seq<char>, j: int)
    requires
        match_at(b, pat, j),
    ensures
        match_at(a + b, pat, a.len() + j),
{
    assert((a + b).subrange(a.len() + j, a.len() + j + pat.len() as int) =~= b.subrange(
        j,
        j + pat.len() as int,
    ));
}

/// An occurrence wholly inside the left part of a concatenation.
pub proof fn lemma_match_in_prefix(a: Seq<char>, b: Seq<char>, pat: Seq<char>, j: int)
    requires
        match_at(a, pat, j),
    ensures
        match_at(a + b, pat, j),
{
    assert((a + b).subrange(j, j + pat.len() as int) =~= a.subrange(j, j + pat.len() as int));
}

/// A prefix in which the pattern never matches is copied verbatim, and
/// replacement continues after it.
pub proof fn lemma_replaced_clean_prefix(s: Seq<char>, pat: Seq<char>, val: Seq<char>, m: int)
    requires
        pat.len() > 0,
        0 <= m <= s.len(),
        forall|p: int| 0 <= p < m ==> !match_at(s, pat, p),
    ensures
        replaced(s, pat, val) == s.take(m) + replaced(s.skip(m), pat, val),
    decreases m,
{
    if m == 0 {
        assert(s.skip(0) =~= s);
        assert(s.take(0) =~= Seq::<char>::empty());
        assert(s.take(0) + replaced(s, pat, val) =~= replaced(s, pat, val));
    } else if s.len() < pat.len() {
        assert(replaced(s.skip(m), pat, val) == s.skip(m));
        assert(s.take(m) + s.skip(m) =~= s);
    } else {
        assert(s.take(pat.len() as int) =~= s.subrange(0, pat.len() as int));
        assert(!match_at(s, pat, 0));
        assert(s.take(pat.len() as int) != pat);
        assert forall|p: int| 0 <= p < m - 1 implies !match_at(s.skip(1), pat, p) by {
            if 0 <= p && p + pat.len() <= s.skip(1).len() {
                assert(s.skip(1).subrange(p, p + pat.len() as int) =~= s.subrange(
                    p + 1,
                    p + 1 + pat.len() as int,
                ));
                assert(!match_at(s, pat, p + 1));
            }
        }
        lemma_replaced_clean_prefix(s.skip(1), pat, val, m - 1);
        assert(s.skip(1).take(m - 1) =~= s.subrange(1, m));
        assert(s.skip(1).skip(m - 1) =~= s.skip(m));
        assert(seq![s[0]] + (s.subrange(1, m) + replaced(s.skip(m), pat, val)) =~= s.take(m)
            + replaced(s.skip(m), pat, val));
    }
}

/// Collects the characters of a string slice.
pub fn to_chars(s: &str) -> (r: Vec<char>)
    ensures
        r@ == s@,
{
    let n: usize = s.unicode_len();
    let mut r: Vec<char> = Vec::new();
    let mut i: usize = 0;
    while i < n
        invariant
            n == s@.len(),
            i <= n,
            r@ == s@.take(i as int),
        decreases n - i,
    {
        let c = s.get_char(i);
        r.push(c);
        proof {
            assert(s@.take(i + 1 as int) =~= s@.take(i as int).push(s@[i as int]));
        }
        i = i + 1;
    }
    proof {
        assert(s@.take(n as int) =~= s@);
    }
    r
}

/// Relies on `String::push`: appends one character to the string.
#[verifier::external_body]
fn push_char(s: &mut String, c: char)
    ensures
        final(s)@ == old(s)@.push(c),
{
    s.push(c);
}

/// Builds a string from a character vector.
pub fn from_chars(v: &Vec<char>) -> (r: String)
    ensures
        r@ == v@,
{
    let mut r = String::new();
    let mut i: usize = 0;
    while i < v.len()
        invariant
            i <= v@.len(),
            r@ == v@.take(i as int),
        decreases v@.len() - i,
    {
        push_char(&mut r, v[i]);
        proof {
            assert(v@.take(i + 1 as int) =~= v@.take(i as int).push(v@[i as int]));
        }
        i = i + 1;
    }
    proof {
        assert(v@.take(v@.len() as int) =~= v@);
    }
    r
}

/// `pat` matches `s` at position `i` (both bounds already known to fit).
fn eq_at(s: &Vec<char>, pat: &Vec<char>, i: usize) -> (r: bool)
    requires
        i + pat@.len() <= s@.len(),
    ensures
        r == match_at(s@, pat@, i as int),
{
    let n: usize = s.len();
    let mut j: usize = 0;
    while j < pat.len()
        invariant
            n == s@.len(),
            i + pat@.len() <= s@.len(),
            j <= pat@.len(),
            forall|k: int| 0 <= k < j ==> s@[i + k] == pat@[k],
        decreases pat@.len() - j,
    {
        proof {
            assert(i + j < s@.len());
        }
        if s[i + j] != pat[j] {
            proof {
                assert(s@.subrange(i as int, i + pat@.len() as int)[j as int] == s@[i + j]);
            }
            return false;
        }
        j = j + 1;
    }
    proof {
        assert(s@.subrange(i as int, i + pat@.len() as int) =~= pat@);
    }
    true
}

/// Leftmost, non-overlapping replacement of `pat` by `val` in `s`.
pub fn replace_chars(s: &Vec<char>, pat: &Vec<char>, val: &Vec<char>) -> (r: Vec<char>)
    requires
        pat@.len() > 0,
    ensures
        r@ == replaced(s@, pat@, val@),
{
    let mut out: Vec<char> = Vec::new();
    let mut i: usize = 0;
    proof {
        assert(s@.skip(0) =~= s@);
        assert(Seq::<char>::empty() + replaced(s@, pat@, val@) =~= replaced(s@, pat@, val@));
    }
    while i < s.len()
        invariant
            pat@.len() > 0,
            i <= s@.len(),
            replaced(s@, pat@, val@) == out@ + replaced(s@.skip(i as int), pat@, val@),
        decreases s@.len() - i,
    {
        let ghost pre = out@;
        let ghost tail = s@.skip(i as int);
        if pat.len() <= s.len() - i && eq_at(s, pat, i) {
            proof {
                assert(tail.subrange(0, pat@.len() as int) =~= s@.subrange(
                    i as int,
                    i + pat@.len() as int,
                ));
                lemma_replaced_head_match(tail, pat@, val@);
                assert(tail.skip(pat@.len() as int) =~= s@.skip(i + pat@.len() as int));
            }
            let mut j: usize = 0;
            while j < val.len()
                invariant
                    j <= val@.len(),
                    out@ == pre + val@.take(j as int),
                decreases val@.len() - j,
            {
                out.push(val[j]);
                proof {
                    assert(val@.take(j + 1 as int) =~= val@.take(j as int).push(val@[j as int]));
                }
                j = j + 1;
            }
            proof {
                assert(val@.take(val@.len() as int) =~= val@);
                assert((pre + val@) + replaced(s@.skip(i + pat@.len() as int), pat@, val@) =~= pre
                    + (val@ + replaced(s@.skip(i + pat@.len() as int), pat@, val@)));
            }
            i = i + pat.len();
        } else {
            out.push(s[i]);
            proof {
                if tail.len() < pat@.len() {
                    assert(replaced(tail, pat@, val@) == tail);
                    assert(tail =~= seq![s@[i as int]] + s@.skip(i + 1));
                    assert(replaced(s@.skip(i + 1), pat@, val@) == s@.skip(i + 1));
                } else {
                    assert(tail.take(pat@.len() as int) =~= s@.subrange(
                        i as int,
                        i + pat@.len() as int,
                    ));
                    assert(tail.take(pat@.len() as int) != pat@);
                    assert(tail[0] == s@[i as int]);
                    assert(tail.skip(1) =~= s@.skip(i + 1));
                }
                assert((pre + seq![s@[i as int]]) + replaced(s@.skip(i + 1), pat@, val@) =~= pre + (
                seq![s@[i as int]] + replaced(s@.skip(i + 1), pat@, val@)));
            }
            i = i + 1;
        }
    }
    proof {
        assert(s@.skip(s@.len() as int) =~= Seq::<char>::empty());
        assert(out@ + Seq::<char>::empty() =~= out@);
    }
    out
}

/// Replaces every leftmost, non-overlapping occurrence of `pat` in `s` by
/// `val`, as the replacement model describes.
pub fn replace_all(s: &str, pat: &str, val: &str) -> (r: String)
    requires
        pat@.len() > 0,
    ensures
        r@ == replaced(s@, pat@, val@),
{
    let sc = to_chars(s);
    let pc = to_chars(pat);
    let vc = to_chars(val);
    let rc = replace_chars(&sc, &pc, &vc);
    from_chars(&rc)
}

/// Whether `pat` occurs somewhere in `s`.
pub fn find_sub(s: &Vec<char>, pat: &Vec<char>) -> (r: bool)
    ensures
        r == contains_seq(s@, pat@),
{
    if pat.len() == 0 {
        proof {
            assert(s@.subrange(0, 0) =~= pat@);
            assert(match_at(s@, pat@, 0));
        }
        return true;
    }
    if pat.len() > s.len() {
        proof {
            assert forall|i: int| !match_at(s@, pat@, i) by {}
        }
        return false;
    }
    let mut i: usize = 0;
    let last: usize = s.len() - pat.len();
    while i <= last
        invariant
            0 < pat@.len() <= s@.len(),
            last == s@.len() - pat@.len(),
            last < usize::MAX,
            i <= last + 1,
            forall|k: int| 0 <= k < i ==> !match_at(s@, pat@, k),
        decreases last + 1 - i,
    {
        if eq_at(s, pat, i) {
            return true;
        }
        i = i + 1;
    }
    proof {
        assert forall|k: int| !match_at(s@, pat@, k) by {
            if 0 <= k && k + pat@.len() <= s@.len() {
                assert(k < i);
            }
        }
    }
    false
}

/// Whether `s` starts with `pat`.
pub fn has_prefix(s: &Vec<char>, pat: &Vec<char>) -> (r: bool)
    ensures
        r == starts_with_seq(s@, pat@),
{
    if pat.len() > s.len() {
        return false;
    }
    let r = eq_at(s, pat, 0);
    proof {
        assert(s@.subrange(0, pat@.len() as int) =~= s@.take(pat@.len() as int));
    }
    r
}

} // verus!
