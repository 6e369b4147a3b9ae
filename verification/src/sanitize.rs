//! Normalization of repository-sync inputs: trims surrounding whitespace,
//! strips surrounding slashes, and defaults an empty branch name.

use vstd::prelude::*;

use crate::text::from_chars;
use crate::text::to_chars;

verus! {

/// A character with the Unicode `White_Space` property, as the standard
/// library's trimming recognizes it.
pub open spec fn is_space_char(c: char) -> bool {
    ||| ('\u{0009}' <= c && c <= '\u{000D}')
    ||| c == ' '
    ||| c == '\u{0085}'
    ||| c == '\u{00A0}'
    ||| c == '\u{1680}'
    ||| ('\u{2000}' <= c && c <= '\u{200A}')
    ||| c == '\u{2028}'
    ||| c == '\u{2029}'
    ||| c == '\u{202F}'
    ||| c == '\u{205F}'
    ||| c == '\u{3000}'
}

/// `s` without its leading whitespace.
pub open spec fn space_trim_front(s: Seq<char>) -> Seq<char>
    decreases s.len(),
{
    if s.len() > 0 && is_space_char(s[0]) {
        space_trim_front(s.skip(1))
    } else {
        s
    }
}

/// `s` without its trailing whitespace.
pub open spec fn space_trim_back(s: Seq<char>) -> Seq<char>
    decreases s.len(),
{
    if s.len() > 0 && is_space_char(s.last()) {
        space_trim_back(s.drop_last())
    } else {
        s
    }
}

/// `s` without surrounding whitespace.
pub open spec fn trimmed(s: Seq<char>) -> Seq<char> {
    space_trim_back(space_trim_front(s))
}

/// `s` without leading occurrences of `c`.
pub open spec fn strip_front(s: Seq<char>, c: char) -> Seq<char>
    decreases s.len(),
{
    if s.len() > 0 && s[0] == c {
        strip_front(s.skip(1), c)
    } else {
        s
    }
}

/// `s` without trailing occurrences of `c`.
pub open spec fn strip_back(s: Seq<char>, c: char) -> Seq<char>
    decreases s.len(),
{
    if s.len() > 0 && s.last() == c {
        strip_back(s.drop_last(), c)
    } else {
        s
    }
}

/// A repository input, normalized: trimmed, surrounding slashes removed.
pub open spec fn sanitized_repo(s: Seq<char>) -> Seq<char> {
    strip_back(strip_front(trimmed(s), '/'), '/')
}

/// A path input, normalized: trimmed, leading slashes removed.
pub open spec fn sanitized_path(s: Seq<char>) -> Seq<char> {
    strip_front(trimmed(s), '/')
}

/// A branch input, normalized: trimmed, defaulting to `main` when empty.
pub open spec fn sanitized_branch(s: Seq<char>) -> Seq<char> {
    if trimmed(s).len() == 0 {
        "main"@
    } else {
        trimmed(s)
    }
}

/// Whether the character counts as whitespace for trimming.
fn is_space(c: char) -> (r: bool)
    ensures
        r == is_space_char(c),
{
    ('\u{0009}' <= c && c <= '\u{000D}') || c == ' ' || c == '\u{0085}' || c == '\u{00A0}' || c
        == '\u{1680}' || ('\u{2000}' <= c && c <= '\u{200A}') || c == '\u{2028}' || c == '\u{2029}'
        || c == '\u{202F}' || c == '\u{205F}' || c == '\u{3000}'
}

/// The characters of `v` from `a` (inclusive) to `b` (exclusive).
fn copy_range(v: &Vec<char>, a: usize, b: usize) -> (r: Vec<char>)
    requires
        a <= b <= v@.len(),
    ensures
        r@ == v@.subrange(a as int, b as int),
{
    let mut out: Vec<char> = Vec::new();
    let mut i: usize = a;
    while i < b
        invariant
            a <= i <= b <= v@.len(),
            out@ == v@.subrange(a as int, i as int),
        decreases b - i,
    {
        out.push(v[i]);
        proof {
            assert(v@.subrange(a as int, i + 1 as int) =~= v@.subrange(a as int, i as int).push(
                v@[i as int],
            ));
        }
        i = i + 1;
    }
    out
}

/// Removes surrounding whitespace.
fn trim_spaces(v: &Vec<char>) -> (r: Vec<char>)
    ensures
        r@ == trimmed(v@),
{
    let n: usize = v.len();
    let mut a: usize = 0;
    proof {
        assert(v@.skip(0) =~= v@);
    }
    while a < n && is_space(v[a])
        invariant
            n == v@.len(),
            a <= n,
            space_trim_front(v@) == space_trim_front(v@.skip(a as int)),
        decreases n - a,
    {
        proof {
            assert(v@.skip(a as int)[0] == v@[a as int]);
            assert(v@.skip(a as int).skip(1) =~= v@.skip(a + 1));
        }
        a = a + 1;
    }
    proof {
        if a < n {
            assert(v@.skip(a as int)[0] == v@[a as int]);
            assert(space_trim_front(v@.skip(a as int)) == v@.skip(a as int));
        } else {
            assert(v@.skip(a as int) =~= Seq::<char>::empty());
        }
        assert(space_trim_front(v@) == v@.skip(a as int));
        assert(v@.subrange(a as int, n as int) =~= v@.skip(a as int));
    }
    let mut b: usize = n;
    while b > a && is_space(v[b - 1])
        invariant
            n == v@.len(),
            a <= b <= n,
            space_trim_back(v@.skip(a as int)) == space_trim_back(
                v@.subrange(a as int, b as int),
            ),
        decreases b,
    {
        proof {
            let w = v@.subrange(a as int, b as int);
            assert(w.last() == v@[b - 1]);
            assert(w.drop_last() =~= v@.subrange(a as int, b - 1));
        }
        b = b - 1;
    }
    proof {
        let w = v@.subrange(a as int, b as int);
        if b > a {
            assert(w.last() == v@[b - 1]);
            assert(space_trim_back(w) == w);
        } else {
            assert(w =~= Seq::<char>::empty());
        }
        assert(trimmed(v@) == v@.subrange(a as int, b as int));
    }
    copy_range(v, a, b)
}

/// Removes leading occurrences of `c`.
fn strip_char_front(v: &Vec<char>, c: char) -> (r: Vec<char>)
    ensures
        r@ == strip_front(v@, c),
{
    let n: usize = v.len();
    let mut a: usize = 0;
    proof {
        assert(v@.skip(0) =~= v@);
    }
    while a < n && v[a] == c
        invariant
            n == v@.len(),
            a <= n,
            strip_front(v@, c) == strip_front(v@.skip(a as int), c),
        decreases n - a,
    {
        proof {
            assert(v@.skip(a as int)[0] == v@[a as int]);
            assert(v@.skip(a as int).skip(1) =~= v@.skip(a + 1));
        }
        a = a + 1;
    }
    proof {
        if a < n {
            assert(v@.skip(a as int)[0] == v@[a as int]);
            assert(strip_front(v@.skip(a as int), c) == v@.skip(a as int));
        } else {
            assert(v@.skip(a as int) =~= Seq::<char>::empty());
        }
        assert(strip_front(v@, c) == v@.skip(a as int));
        assert(v@.subrange(a as int, n as int) =~= v@.skip(a as int));
    }
    copy_range(v, a, n)
}

/// Removes trailing occurrences of `c`.
pub(crate) fn strip_char_back(v: &Vec<char>, c: char) -> (r: Vec<char>)
    ensures
        r@ == strip_back(v@, c),
{
    let n: usize = v.len();
    let mut b: usize = n;
    proof {
        assert(v@.subrange(0, n as int) =~= v@);
    }
    while b > 0 && v[b - 1] == c
        invariant
            n == v@.len(),
            b <= n,
            strip_back(v@, c) == strip_back(v@.subrange(0, b as int), c),
        decreases b,
    {
        proof {
            let w = v@.subrange(0, b as int);
            assert(w.last() == v@[b - 1]);
            assert(w.drop_last() =~= v@.subrange(0, b - 1));
        }
        b = b - 1;
    }
    proof {
        let w = v@.subrange(0, b as int);
        if b > 0 {
            assert(w.last() == v@[b - 1]);
            assert(strip_back(w, c) == w);
        } else {
            assert(w =~= Seq::<char>::empty());
        }
        assert(strip_back(v@, c) == v@.subrange(0, b as int));
    }
    copy_range(v, 0, b)
}

/// Normalizes repository-sync inputs: repo and path are trimmed and lose
/// surrounding (repo) or leading (path) slashes; the branch is trimmed and
/// defaults to `main` when empty.
pub fn sanitize_github_inputs(repo: String, path: String, branch: String) -> (r: (
    String,
    String,
    String,
))
    ensures
        r.0@ == sanitized_repo(repo@),
        r.1@ == sanitized_path(path@),
        r.2@ == sanitized_branch(branch@),
{
    let repo_chars = strip_char_back(&strip_char_front(&trim_spaces(&to_chars(repo.as_str())), '/'), '/');
    let path_chars = strip_char_front(&trim_spaces(&to_chars(path.as_str())), '/');
    let branch_chars = trim_spaces(&to_chars(branch.as_str()));
    let branch_out = if branch_chars.len() == 0 {
        String::from_str("main")
    } else {
        from_chars(&branch_chars)
    };
    (from_chars(&repo_chars), from_chars(&path_chars), branch_out)
}

} // verus!
