//! Character-level helpers over `&str` with exact contracts.

use vstd::prelude::*;
use vstd::string::*;

verus! {

/// Index of the first `c` in `s` at or after `start`, or `s.len()` if there is none.
pub open spec fn sep_index(s: Seq<char>, c: char, start: int) -> int
    decreases s.len() - start,
{
    if start < 0 || start >= s.len() {
        s.len() as int
    } else if s[start] == c {
        start
    } else {
        sep_index(s, c, start + 1)
    }
}

/// `p` is a prefix of `s`.
pub open spec fn is_prefix(p: Seq<char>, s: Seq<char>) -> bool {
    p.len() <= s.len() && s.subrange(0, p.len() as int) == p
}

/// `s` with every leading repetition of `p` removed.
pub open spec fn trim_leading(s: Seq<char>, p: Seq<char>) -> Seq<char>
    decreases s.len(),
{
    if p.len() > 0 && is_prefix(p, s) {
        trim_leading(s.subrange(p.len() as int, s.len() as int), p)
    } else {
        s
    }
}

pub proof fn lemma_sep_index_bounds(s: Seq<char>, c: char, start: int)
    requires
        0 <= start <= s.len(),
    ensures
        start <= sep_index(s, c, start) <= s.len(),
        sep_index(s, c, start) < s.len() ==> s[sep_index(s, c, start)] == c,
        forall|j: int| start <= j < sep_index(s, c, start) ==> s[j] != c,
    decreases s.len() - start,
{
    if start < s.len() && s[start] != c {
        lemma_sep_index_bounds(s, c, start + 1);
    }
}

pub proof fn lemma_sep_index_at(s: Seq<char>, c: char, start: int, k: int)
    requires
        0 <= start <= k <= s.len(),
        forall|j: int| start <= j < k ==> s[j] != c,
        k == s.len() || s[k] == c,
    ensures
        sep_index(s, c, start) == k,
    decreases k - start,
{
    if start < k {
        lemma_sep_index_at(s, c, start + 1, k);
    }
}

/// Whether two strings hold the same characters.
pub fn same_text(a: &str, b: &str) -> (r: bool)
    ensures
        r == (a@ == b@),
{
    let n = a.unicode_len();
    let m = b.unicode_len();
    if n != m {
        return false;
    }
    let mut i: usize = 0;
    while i < n
        invariant
            n == a@.len(),
            m == b@.len(),
            n == m,
            i <= n,
            forall|j: int| 0 <= j < i ==> a@[j] == b@[j],
        decreases n - i,
    {
        if a.get_char(i) != b.get_char(i) {
            return false;
        }
        i += 1;
    }
    assert(a@ =~= b@);
    true
}

/// Whether `s` begins with `p`.
pub fn starts_with_text(s: &str, p: &str) -> (r: bool)
    ensures
        r == is_prefix(p@, s@),
{
    let n = s.unicode_len();
    let m = p.unicode_len();
    if m > n {
        return false;
    }
    same_text(s.substring_char(0, m), p)
}

/// Position of the first `c` in `s` at or after `start`, or the length of `s`.
pub fn find_char_from(s: &str, c: char, start: usize) -> (r: usize)
    requires
        start <= s@.len(),
    ensures
        r == sep_index(s@, c, start as int),
        start <= r <= s@.len(),
{
    proof {
        lemma_sep_index_bounds(s@, c, start as int);
    }
    let n = s.unicode_len();
    let mut i = start;
    while i < n
        invariant
            n == s@.len(),
            start <= i <= n,
            sep_index(s@, c, start as int) == sep_index(s@, c, i as int),
        decreases n - i,
    {
        if s.get_char(i) == c {
            return i;
        }
        i += 1;
    }
    i
}

/// The characters of `s` from `from` up to `to`, as an owned string.
pub fn slice_text(s: &str, from: usize, to: usize) -> (r: String)
    requires
        from <= to <= s@.len(),
    ensures
        r@ == s@.subrange(from as int, to as int),
{
    String::from_str(s.substring_char(from, to))
}

/// `s` with every leading repetition of `p` removed.
pub fn trim_leading_text(s: &str, p: &str) -> (r: String)
    ensures
        r@ == trim_leading(s@, p@),
{
    let n = s.unicode_len();
    let m = p.unicode_len();
    let mut start: usize = 0;
    assert(s@.subrange(0, n as int) =~= s@);
    if m > 0 {
        while m <= n - start && same_text(s.substring_char(start, start + m), p)
            invariant
                n == s@.len(),
                m == p@.len(),
                m > 0,
                start <= n,
                trim_leading(s@, p@) == trim_leading(s@.subrange(start as int, n as int), p@),
            decreases n - start,
        {
            proof {
                let rest = s@.subrange(start as int, n as int);
                assert(rest.subrange(0, m as int) =~= s@.subrange(start as int, start + m));
                assert(rest.subrange(m as int, rest.len() as int) =~= s@.subrange(
                    start + m,
                    n as int,
                ));
            }
            start = start + m;
        }
        proof {
            let rest = s@.subrange(start as int, n as int);
            if m <= rest.len() {
                assert(rest.subrange(0, m as int) =~= s@.subrange(start as int, start + m));
            }
        }
    }
    slice_text(s, start, n)
}

} // verus!
