//! Character-level string predicates and their executable counterparts.
//!
//! Every textual rule of the validator (prefix tests on URLs and robots
//! lines, marker searches in page bodies, policy comparisons) is stated
//! over `Seq<char>` views; the functions here connect those statements
//! to executable scans.

use vstd::prelude::*;

verus! {

use vstd::string::StrSliceExecFns;
use vstd::string::StringExecFns;

/// True when `p` is a prefix of `s`.
pub open spec fn starts_with(s: Seq<char>, p: Seq<char>) -> bool {
    p.len() <= s.len() && s.take(p.len() as int) == p
}

/// True when `p` is a suffix of `s`.
pub open spec fn ends_with(s: Seq<char>, p: Seq<char>) -> bool {
    p.len() <= s.len() && s.skip(s.len() - p.len()) == p
}

/// The characters of `s` beginning at index `i` are exactly `p`.
pub open spec fn matches_at(s: Seq<char>, p: Seq<char>, i: int) -> bool {
    0 <= i && i + p.len() <= s.len() && s.subrange(i, i + p.len()) == p
}

/// `p` occurs somewhere in `s`.
pub open spec fn contains_seq(s: Seq<char>, p: Seq<char>) -> bool {
    exists|i: int| matches_at(s, p, i)
}

/// Index of the first occurrence of `c` in `s`; `s.len()` when absent.
pub open spec fn char_index(s: Seq<char>, c: char) -> int
    decreases s.len(),
{
    if s.len() == 0 {
        0
    } else if s[0] == c {
        0
    } else {
        1 + char_index(s.skip(1), c)
    }
}

/// Number of occurrences of `c` in `s`.
pub open spec fn char_count(s: Seq<char>, c: char) -> nat
    decreases s.len(),
{
    if s.len() == 0 {
        0
    } else {
        (if s[0] == c {
            1nat
        } else {
            0nat
        }) + char_count(s.skip(1), c)
    }
}

/// `char_index` points at the first occurrence of `c`, or at the end.
pub proof fn lemma_char_index(s: Seq<char>, c: char)
    ensures
        0 <= char_index(s, c) <= s.len(),
        char_index(s, c) < s.len() ==> s[char_index(s, c)] == c,
        forall|j: int| 0 <= j < char_index(s, c) ==> s[j] != c,
    decreases s.len(),
{
    if s.len() != 0 && s[0] != c {
        lemma_char_index(s.skip(1), c);
        assert forall|j: int| 0 <= j < char_index(s, c) implies s[j] != c by {
            if j > 0 {
                assert(s.skip(1)[j - 1] == s[j]);
            }
        }
        if char_index(s, c) < s.len() {
            assert(s.skip(1)[char_index(s, c) - 1] == s[char_index(s, c)]);
        }
    }
}

/// A prefix of a prefix is a prefix.
pub proof fn lemma_starts_with_trans(s: Seq<char>, p: Seq<char>, q: Seq<char>)
    requires
        starts_with(s, p),
        starts_with(p, q),
    ensures
        starts_with(s, q),
{
    assert(s.take(p.len() as int).take(q.len() as int) =~= s.take(q.len() as int));
}

/// A position before which `c` never occurs, and at which `c` occurs or
/// the string ends, is exactly `char_index`.
pub proof fn lemma_char_index_unique(s: Seq<char>, c: char, i: int)
    requires
        0 <= i <= s.len(),
        forall|j: int| 0 <= j < i ==> s[j] != c,
        i < s.len() ==> s[i] == c,
    ensures
        char_index(s, c) == i,
{
    lemma_char_index(s, c);
    if char_index(s, c) < i {
        assert(s[char_index(s, c)] != c);
    }
    if i < char_index(s, c) {
        assert(s[i] != c);
    }
}

/// Whether `p` is a prefix of `s`.
pub fn str_prefix(s: &str, p: &str) -> (r: bool)
    ensures
        r == starts_with(s@, p@),
{
    let sn = s.unicode_len();
    let pn = p.unicode_len();
    if pn > sn {
        return false;
    }
    let mut i: usize = 0;
    while i < pn
        invariant
            pn <= sn,
            i <= pn,
            pn == p@.len(),
            sn == s@.len(),
            forall|j: int| 0 <= j < i ==> s@[j] == p@[j],
        decreases pn - i,
    {
        if s.get_char(i) != p.get_char(i) {
            assert(s@.take(pn as int)[i as int] != p@[i as int]);
            return false;
        }
        i += 1;
    }
    assert(s@.take(pn as int) =~= p@);
    true
}

/// Whether `p` is a suffix of `s`.
pub fn str_suffix(s: &str, p: &str) -> (r: bool)
    ensures
        r == ends_with(s@, p@),
{
    let sn = s.unicode_len();
    let pn = p.unicode_len();
    if pn > sn {
        return false;
    }
    let mut i: usize = 0;
    while i < pn
        invariant
            pn <= sn,
            i <= pn,
            pn == p@.len(),
            sn == s@.len(),
            forall|j: int| 0 <= j < i ==> s@[sn - pn + j] == p@[j],
        decreases pn - i,
    {
        if s.get_char(sn - pn + i) != p.get_char(i) {
            assert(s@.skip(sn as int - pn as int)[i as int] != p@[i as int]);
            return false;
        }
        i += 1;
    }
    assert(s@.skip(sn as int - pn as int) =~= p@);
    true
}

/// Whether the characters of `s` at index `i` are exactly `p`.
pub fn str_at(s: &str, i: usize, p: &str) -> (r: bool)
    ensures
        r == matches_at(s@, p@, i as int),
{
    let sn = s.unicode_len();
    let pn = p.unicode_len();
    if pn > sn || i > sn - pn {
        return false;
    }
    let mut j: usize = 0;
    while j < pn
        invariant
            i + pn <= sn,
            j <= pn,
            pn == p@.len(),
            sn == s@.len(),
            forall|k: int| 0 <= k < j ==> s@[i + k] == p@[k],
        decreases pn - j,
    {
        if s.get_char(i + j) != p.get_char(j) {
            assert(s@.subrange(i as int, i as int + pn as int)[j as int] != p@[j as int]);
            return false;
        }
        j += 1;
    }
    assert(s@.subrange(i as int, i as int + pn as int) =~= p@);
    true
}

/// Whether `p` occurs anywhere in `s`.
pub fn str_contains(s: &str, p: &str) -> (r: bool)
    ensures
        r == contains_seq(s@, p@),
{
    let sn = s.unicode_len();
    let pn = p.unicode_len();
    if pn > sn {
        assert forall|i: int| !matches_at(s@, p@, i) by {}
        return false;
    }
    if pn == 0 {
        assert(matches_at(s@, p@, 0)) by {
            assert(s@.subrange(0, 0) =~= p@);
        }
        return true;
    }
    let mut i: usize = 0;
    while i <= sn - pn
        invariant
            0 < pn <= sn,
            i <= sn - pn + 1,
            pn == p@.len(),
            sn == s@.len(),
            forall|j: int| 0 <= j < i ==> !matches_at(s@, p@, j),
        decreases sn - i,
    {
        if str_at(s, i, p) {
            return true;
        }
        i += 1;
    }
    assert forall|j: int| !matches_at(s@, p@, j) by {
        if 0 <= j < i {
        }
    }
    false
}

/// Whether two string slices hold the same characters.
pub fn str_equal(s: &str, p: &str) -> (r: bool)
    ensures
        r == (s@ == p@),
{
    let sn = s.unicode_len();
    let pn = p.unicode_len();
    if sn != pn {
        return false;
    }
    let r = str_prefix(s, p);
    proof {
        assert(s@.take(pn as int) =~= s@);
    }
    r
}

/// Index of the first occurrence of `c` in `s`, or `s` length when absent.
pub fn str_char_index(s: &str, c: char) -> (r: usize)
    ensures
        r as int == char_index(s@, c),
{
    let sn = s.unicode_len();
    let mut i: usize = 0;
    while i < sn
        invariant
            i <= sn,
            sn == s@.len(),
            forall|j: int| 0 <= j < i ==> s@[j] != c,
        decreases sn - i,
    {
        if s.get_char(i) == c {
            proof {
                lemma_char_index_unique(s@, c, i as int);
            }
            return i;
        }
        i += 1;
    }
    proof {
        lemma_char_index_unique(s@, c, sn as int);
    }
    sn
}

/// Copy of the characters of `s` from `from` (inclusive) to `to`
/// (exclusive) as an owned string.
pub fn str_range(s: &str, from: usize, to: usize) -> (r: String)
    requires
        from <= to <= s@.len(),
    ensures
        r@ == s@.subrange(from as int, to as int),
{
    String::from_str(s.substring_char(from, to))
}

/// An owned copy of a string slice.
pub fn str_copy(s: &str) -> (r: String)
    ensures
        r@ == s@,
{
    let r = str_range(s, 0, s.unicode_len());
    proof {
        assert(r@ =~= s@);
    }
    r
}

} // verus!
