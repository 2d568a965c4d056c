//! Verified text helpers: equality, case folding, the name normalization used
//! by the type vocabulary, and substring tests for the system-service
//! heuristic.  All contracts are stated over `Seq<char>` views.

use vstd::prelude::*;
use vstd::string::*;

verus! {

/// Case folding for one character: ASCII capitals map to their lower-case
/// form, everything else is unchanged.
pub open spec fn fold_case_char(c: char) -> char {
    if 'A' <= c && c <= 'Z' {
        (((c as u32) + 32) as u8) as char
    } else {
        c
    }
}

/// Vocabulary normalization for one character: underscores become hyphens,
/// ASCII capitals fold to lower case, everything else is unchanged.
pub open spec fn normalize_char(c: char) -> char {
    if c == '_' {
        '-'
    } else {
        fold_case_char(c)
    }
}

pub open spec fn fold_case(s: Seq<char>) -> Seq<char> {
    Seq::new(s.len(), |i: int| fold_case_char(s[i]))
}

/// A supertype name as the vocabulary matches it: lower-cased with
/// underscores replaced by hyphens.
pub open spec fn normalized(s: Seq<char>) -> Seq<char> {
    Seq::new(s.len(), |i: int| normalize_char(s[i]))
}

pub open spec fn contains_char_spec(s: Seq<char>, c: char) -> bool {
    exists|i: int| 0 <= i < s.len() && s[i] == c
}

pub open spec fn starts_with_spec(s: Seq<char>, p: Seq<char>) -> bool {
    p.len() <= s.len() && s.subrange(0, p.len() as int) == p
}

pub open spec fn ends_with_spec(s: Seq<char>, p: Seq<char>) -> bool {
    p.len() <= s.len() && s.subrange(s.len() - p.len(), s.len() as int) == p
}

pub open spec fn contains_seq_spec(s: Seq<char>, p: Seq<char>) -> bool {
    exists|i: int| 0 <= i && i + p.len() <= s.len() && #[trigger] s.subrange(i, i + p.len()) == p
}

fn fold_case_exec(c: char) -> (r: char)
    ensures
        r == fold_case_char(c),
{
    if 'A' <= c && c <= 'Z' {
        (((c as u32) + 32) as u8) as char
    } else {
        c
    }
}

fn normalize_char_exec(c: char) -> (r: char)
    ensures
        r == normalize_char(c),
{
    if c == '_' {
        '-'
    } else {
        fold_case_exec(c)
    }
}

/// Character-for-character equality of two string slices.
pub fn str_eq(a: &str, b: &str) -> (r: bool)
    ensures
        r == (a@ == b@),
{
    let n = a.unicode_len();
    if n != b.unicode_len() {
        assert(a@ != b@) by {
            assert(a@.len() != b@.len());
        }
        return false;
    }
    let mut i: usize = 0;
    while i < n
        invariant
            i <= n,
            n == a@.len(),
            n == b@.len(),
            forall|j: int| 0 <= j < i ==> a@[j] == b@[j],
        decreases n - i,
    {
        if a.get_char(i) != b.get_char(i) {
            return false;
        }
        i = i + 1;
    }
    assert(a@ =~= b@);
    true
}

/// Does the vocabulary normalization of `s` equal `t`?  `t` is expected to be
/// an already-normalized table entry.
pub fn eq_normalized(s: &str, t: &str) -> (r: bool)
    ensures
        r == (normalized(s@) == t@),
{
    let n = s.unicode_len();
    if n != t.unicode_len() {
        assert(normalized(s@) != t@) by {
            assert(normalized(s@).len() != t@.len());
        }
        return false;
    }
    let mut i: usize = 0;
    while i < n
        invariant
            i <= n,
            n == s@.len(),
            n == t@.len(),
            forall|j: int| 0 <= j < i ==> normalize_char(s@[j]) == t@[j],
        decreases n - i,
    {
        if normalize_char_exec(s.get_char(i)) != t.get_char(i) {
            assert(normalized(s@)[i as int] != t@[i as int]);
            return false;
        }
        i = i + 1;
    }
    assert(normalized(s@) =~= t@);
    true
}

/// ASCII-case-insensitive equality, as used when matching application names.
pub fn eq_ignore_ascii_case(a: &str, b: &str) -> (r: bool)
    ensures
        r == (fold_case(a@) == fold_case(b@)),
{
    let n = a.unicode_len();
    if n != b.unicode_len() {
        assert(fold_case(a@) != fold_case(b@)) by {
            assert(fold_case(a@).len() != fold_case(b@).len());
        }
        return false;
    }
    let mut i: usize = 0;
    while i < n
        invariant
            i <= n,
            n == a@.len(),
            n == b@.len(),
            forall|j: int| 0 <= j < i ==> fold_case_char(a@[j]) == fold_case_char(b@[j]),
        decreases n - i,
    {
        if fold_case_exec(a.get_char(i)) != fold_case_exec(b.get_char(i)) {
            assert(fold_case(a@)[i as int] != fold_case(b@)[i as int]);
            return false;
        }
        i = i + 1;
    }
    assert(fold_case(a@) =~= fold_case(b@));
    true
}

/// Does `s` contain the character `c`?
pub fn contains_char(s: &str, c: char) -> (r: bool)
    ensures
        r == contains_char_spec(s@, c),
{
    let n = s.unicode_len();
    let mut i: usize = 0;
    while i < n
        invariant
            i <= n,
            n == s@.len(),
            forall|j: int| 0 <= j < i ==> s@[j] != c,
        decreases n - i,
    {
        if s.get_char(i) == c {
            return true;
        }
        i = i + 1;
    }
    false
}

/// Does `s` start with `p`?
pub fn starts_with(s: &str, p: &str) -> (r: bool)
    ensures
        r == starts_with_spec(s@, p@),
{
    let m = p.unicode_len();
    if m > s.unicode_len() {
        return false;
    }
    let mut i: usize = 0;
    while i < m
        invariant
            i <= m,
            m == p@.len(),
            m <= s@.len(),
            forall|j: int| 0 <= j < i ==> s@[j] == p@[j],
        decreases m - i,
    {
        if s.get_char(i) != p.get_char(i) {
            assert(!starts_with_spec(s@, p@)) by {
                assert(s@.subrange(0, p@.len() as int)[i as int] != p@[i as int]);
            }
            return false;
        }
        i = i + 1;
    }
    assert(s@.subrange(0, p@.len() as int) =~= p@);
    true
}

/// Does `s` end with `p`?
pub fn ends_with(s: &str, p: &str) -> (r: bool)
    ensures
        r == ends_with_spec(s@, p@),
{
    let m = p.unicode_len();
    let n = s.unicode_len();
    if m > n {
        return false;
    }
    let off = n - m;
    let mut i: usize = 0;
    while i < m
        invariant
            i <= m,
            m == p@.len(),
            n == s@.len(),
            off == n - m,
            forall|j: int| 0 <= j < i ==> s@[off + j] == p@[j],
        decreases m - i,
    {
        if s.get_char(off + i) != p.get_char(i) {
            assert(!ends_with_spec(s@, p@)) by {
                assert(s@.subrange(s@.len() - p@.len(), s@.len() as int)[i as int]
                    != p@[i as int]);
            }
            return false;
        }
        i = i + 1;
    }
    assert(s@.subrange(s@.len() - p@.len(), s@.len() as int) =~= p@);
    true
}

/// Does `s` match `p` starting at position `at`?
fn matches_at(s: &str, p: &str, at: usize) -> (r: bool)
    requires
        at + p@.len() <= s@.len(),
    ensures
        r == (s@.subrange(at as int, at + p@.len()) == p@),
{
    let m = p.unicode_len();
    let n = s.unicode_len();
    let mut j: usize = 0;
    while j < m
        invariant
            j <= m,
            m == p@.len(),
            n == s@.len(),
            at + m <= n,
            forall|k: int| 0 <= k < j ==> s@[at + k] == p@[k],
        decreases m - j,
    {
        if s.get_char(at + j) != p.get_char(j) {
            assert(s@.subrange(at as int, at + p@.len())[j as int] != p@[j as int]);
            return false;
        }
        j = j + 1;
    }
    assert(s@.subrange(at as int, at + p@.len()) =~= p@);
    true
}

/// Does `s` contain `p` as a contiguous substring?
pub fn contains_substr(s: &str, p: &str) -> (r: bool)
    ensures
        r == contains_seq_spec(s@, p@),
{
    let m = p.unicode_len();
    let n = s.unicode_len();
    if m > n {
        return false;
    }
    if m == 0 {
        assert(contains_seq_spec(s@, p@)) by {
            assert(s@.subrange(0, 0 + p@.len() as int) =~= p@);
        }
        return true;
    }
    let last = n - m;
    let mut i: usize = 0;
    while i <= last
        invariant
            i <= last + 1,
            1 <= m == p@.len(),
            n == s@.len(),
            m <= n,
            last == n - m,
            forall|k: int| 0 <= k < i ==> #[trigger] s@.subrange(k, k + p@.len()) != p@,
        decreases last + 1 - i,
    {
        if matches_at(s, p, i) {
            return true;
        }
        i = i + 1;
    }
    assert(forall|k: int| 0 <= k && k + p@.len() <= s@.len()
        ==> #[trigger] s@.subrange(k, k + p@.len()) != p@);
    false
}

} // verus!


verus! {

/// The views of a sequence of strings.
pub open spec fn strs_view(v: Seq<String>) -> Seq<Seq<char>> {
    v.map_values(|s: String| s@)
}

/// Does the vector contain a string equal to `s`?
pub fn strvec_contains(v: &Vec<String>, s: &str) -> (r: bool)
    ensures
        r == strs_view(v@).contains(s@),
{
    let n = v.len();
    let mut i: usize = 0;
    while i < n
        invariant
            i <= n,
            n == v@.len(),
            forall|j: int| 0 <= j < i ==> strs_view(v@)[j] != s@,
        decreases n - i,
    {
        if str_eq(v[i].as_str(), s) {
            assert(strs_view(v@).contains(s@)) by {
                assert(strs_view(v@)[i as int] == s@);
            }
            return true;
        }
        i = i + 1;
    }
    assert(!strs_view(v@).contains(s@));
    false
}

/// An element-wise copy of a vector of strings.
pub fn strvec_clone(v: &Vec<String>) -> (r: Vec<String>)
    ensures
        r@ == v@,
{
    let n = v.len();
    let mut out: Vec<String> = Vec::new();
    let mut i: usize = 0;
    while i < n
        invariant
            i <= n,
            n == v@.len(),
            out@ == v@.subrange(0, i as int),
        decreases n - i,
    {
        out.push(v[i].clone());
        assert(out@ =~= v@.subrange(0, i + 1 as int));
        i = i + 1;
    }
    assert(out@ =~= v@);
    out
}

} // verus!
