//! Character-level string utilities: substring search, trimming, and
//! equality, with the spec functions the parser's contracts are stated over.
use vstd::prelude::*;

verus! {

/// The pattern `pat` occurs in `s` starting at index `i`.
pub open spec fn occurs_at(s: Seq<char>, pat: Seq<char>, i: int) -> bool {
    0 <= i && i + pat.len() <= s.len() && s.subrange(i, i + pat.len() as int) == pat
}

/// `pat` occurs somewhere in `s`.
pub open spec fn contains_pat(s: Seq<char>, pat: Seq<char>) -> bool {
    exists|i: int| occurs_at(s, pat, i)
}

/// Index of the first occurrence of `pat` in `s` at or after `i`, if any.
pub open spec fn first_match_from(s: Seq<char>, pat: Seq<char>, i: int) -> Option<int>
    recommends
        0 <= i,
    decreases s.len() - i + 1,
{
    if i < 0 || i + pat.len() > s.len() {
        None
    } else if s.subrange(i, i + pat.len() as int) == pat {
        Some(i)
    } else {
        first_match_from(s, pat, i + 1)
    }
}

/// Index of the first occurrence of `pat` in `s`, if any.
pub open spec fn first_match(s: Seq<char>, pat: Seq<char>) -> Option<int> {
    first_match_from(s, pat, 0)
}

/// Index of the last occurrence of `pat` in `s` at or below `i`, if any.
pub open spec fn last_match_before(s: Seq<char>, pat: Seq<char>, i: int) -> Option<int>
    decreases i + 1,
{
    if i < 0 {
        None
    } else if i + pat.len() > s.len() {
        last_match_before(s, pat, i - 1)
    } else if s.subrange(i, i + pat.len() as int) == pat {
        Some(i)
    } else {
        last_match_before(s, pat, i - 1)
    }
}

/// Index of the last occurrence of `pat` in `s`, if any.
pub open spec fn last_match(s: Seq<char>, pat: Seq<char>) -> Option<int> {
    last_match_before(s, pat, s.len() - pat.len())
}

/// Whether `c` has the Unicode `White_Space` property, the set that
/// `str::trim` removes.
pub open spec fn is_space(c: char) -> bool {
    c == ' ' || c == '\t' || c == '\n' || c == '\r' || c == '\u{b}' || c == '\u{c}'
        || c == '\u{85}' || c == '\u{a0}' || c == '\u{1680}'
        || ('\u{2000}' <= c && c <= '\u{200a}') || c == '\u{2028}' || c == '\u{2029}'
        || c == '\u{202f}' || c == '\u{205f}' || c == '\u{3000}'
}

/// Index of the first non-whitespace character at or after `i` (or `s.len()`).
pub open spec fn first_non_space(s: Seq<char>, i: int) -> int
    recommends
        0 <= i <= s.len(),
    decreases s.len() - i + 1,
{
    if i < 0 || i >= s.len() {
        s.len() as int
    } else if is_space(s[i]) {
        first_non_space(s, i + 1)
    } else {
        i
    }
}

/// End (exclusive) of the last non-whitespace character strictly below `j` (or 0).
pub open spec fn last_non_space_end(s: Seq<char>, j: int) -> int
    recommends
        0 <= j <= s.len(),
    decreases j,
{
    if j <= 0 {
        0
    } else if is_space(s[j - 1]) {
        last_non_space_end(s, j - 1)
    } else {
        j
    }
}

/// `s` with leading and trailing whitespace removed.
pub open spec fn trim_spec(s: Seq<char>) -> Seq<char> {
    let a = first_non_space(s, 0);
    let b = last_non_space_end(s, s.len() as int);
    if a >= b {
        Seq::empty()
    } else {
        s.subrange(a, b)
    }
}

/// `s` with leading whitespace removed.
pub open spec fn trim_start_spec(s: Seq<char>) -> Seq<char> {
    s.subrange(first_non_space(s, 0), s.len() as int)
}

/// Whether `c` has the Unicode `White_Space` property.
pub fn is_space_char(c: char) -> (r: bool)
    ensures
        r == is_space(c),
{
    c == ' ' || c == '\t' || c == '\n' || c == '\r' || c == '\u{b}' || c == '\u{c}'
        || c == '\u{85}' || c == '\u{a0}' || c == '\u{1680}'
        || ('\u{2000}' <= c && c <= '\u{200a}') || c == '\u{2028}' || c == '\u{2029}'
        || c == '\u{202f}' || c == '\u{205f}' || c == '\u{3000}'
}

/// Whether `pat` occurs in `s` at position `i`.
pub fn pat_at(s: &str, pat: &str, i: usize) -> (r: bool)
    requires
        i + pat@.len() <= s@.len(),
        s@.len() <= usize::MAX,
    ensures
        r == occurs_at(s@, pat@, i as int),
{
    let n = pat.unicode_len();
    let mut j: usize = 0;
    while j < n
        invariant
            n == pat@.len(),
            0 <= j <= n,
            i + n <= s@.len(),
            s@.len() <= usize::MAX,
            forall|k: int| 0 <= k < j ==> s@[i + k] == pat@[k],
        decreases n - j,
    {
        if s.get_char(i + j) != pat.get_char(j) {
            assert(s@.subrange(i as int, i + pat@.len() as int)[j as int] != pat@[j as int]);
            return false;
        }
        j += 1;
    }
    assert(s@.subrange(i as int, i + pat@.len() as int) =~= pat@);
    true
}

/// Skipping a position without a match leaves the first match unchanged.
proof fn lemma_first_match_skip(s: Seq<char>, pat: Seq<char>, i: int)
    requires
        0 <= i,
        !occurs_at(s, pat, i),
    ensures
        first_match_from(s, pat, i) == first_match_from(s, pat, i + 1),
{
    if i + pat.len() > s.len() {
        assert(first_match_from(s, pat, i) is None);
        assert(first_match_from(s, pat, i + 1) is None);
    }
}

/// A found first match at or after `from` really is the first.
pub proof fn lemma_first_match_found(s: Seq<char>, pat: Seq<char>, from: int, i: int)
    requires
        first_match_from(s, pat, from) == Some(i),
    ensures
        occurs_at(s, pat, i),
        from <= i,
        forall|j: int| from <= j < i ==> !occurs_at(s, pat, j),
    decreases s.len() - from + 1,
{
    if from < 0 || from + pat.len() > s.len() {
    } else if s.subrange(from, from + pat.len() as int) == pat {
    } else {
        lemma_first_match_found(s, pat, from + 1, i);
    }
}

/// Index of the first occurrence of `pat` at or after `from` in `s`.
pub fn find_first_from(s: &str, pat: &str, from: usize) -> (r: Option<usize>)
    requires
        from <= s@.len(),
        pat@.len() >= 1,
    ensures
        (match r {
            Some(i) => first_match_from(s@, pat@, from as int) == Some(i as int),
            None => first_match_from(s@, pat@, from as int) is None,
        }),
{
    let n = s.unicode_len();
    let m = pat.unicode_len();
    if m > n {
        proof {
            lemma_first_match_scan_none(s@, pat@, from as int);
        }
        return None;
    }
    let mut i: usize = from;
    while i <= n - m
        invariant
            n == s@.len(),
            m == pat@.len(),
            n <= usize::MAX,
            1 <= m <= n,
            from <= i <= n,
            first_match_from(s@, pat@, from as int) == first_match_from(s@, pat@, i as int),
        decreases n - i,
    {
        if pat_at(s, pat, i) {
            return Some(i);
        }
        proof {
            lemma_first_match_skip(s@, pat@, i as int);
        }
        i += 1;
    }
    None
}

/// `first_match_from` is `None` as soon as no position can hold the pattern.
proof fn lemma_first_match_scan_none(s: Seq<char>, pat: Seq<char>, from: int)
    requires
        0 <= from,
        pat.len() + from > s.len(),
    ensures
        first_match_from(s, pat, from) is None,
{
}

/// Index of the last occurrence of `pat` in `s`.
pub fn find_last(s: &str, pat: &str) -> (r: Option<usize>)
    requires
        pat@.len() >= 1,
    ensures
        (match r {
            Some(i) => last_match(s@, pat@) == Some(i as int),
            None => last_match(s@, pat@) is None,
        }),
{
    let n = s.unicode_len();
    let m = pat.unicode_len();
    if m > n {
        return None;
    }
    let mut i: usize = n - m;
    loop
        invariant
            n == s@.len(),
            m == pat@.len(),
            n <= usize::MAX,
            m <= n,
            0 <= i <= n - m,
            last_match(s@, pat@) == last_match_before(s@, pat@, i as int),
        decreases i,
    {
        if pat_at(s, pat, i) {
            return Some(i);
        }
        if i == 0 {
            proof {
                assert(last_match_before(s@, pat@, -1) is None);
            }
            return None;
        }
        i -= 1;
    }
}

/// A found last match really is an occurrence, and the last one below `i`.
pub proof fn lemma_last_match_found(s: Seq<char>, pat: Seq<char>, i: int, j: int)
    requires
        last_match_before(s, pat, i) == Some(j),
    ensures
        occurs_at(s, pat, j),
        j <= i,
        forall|k: int| j < k <= i ==> !occurs_at(s, pat, k),
    decreases i + 1,
{
    if i < 0 {
    } else if i + pat.len() > s.len() {
        lemma_last_match_found(s, pat, i - 1, j);
        assert(!occurs_at(s, pat, i));
    } else if s.subrange(i, i + pat.len() as int) == pat {
    } else {
        lemma_last_match_found(s, pat, i - 1, j);
    }
}

/// A failed downward scan means no occurrence at or below `i`.
pub proof fn lemma_last_match_none(s: Seq<char>, pat: Seq<char>, i: int)
    requires
        last_match_before(s, pat, i) is None,
    ensures
        forall|k: int| k <= i ==> !occurs_at(s, pat, k),
    decreases i + 1,
{
    if i >= 0 {
        lemma_last_match_none(s, pat, i - 1);
    }
}

/// `last_match` misses nothing: on `None` the pattern is nowhere in `s`.
pub proof fn lemma_last_match_complete(s: Seq<char>, pat: Seq<char>)
    requires
        last_match(s, pat) is None,
    ensures
        !contains_pat(s, pat),
{
    lemma_last_match_none(s, pat, s.len() - pat.len());
    assert forall|k: int| !occurs_at(s, pat, k) by {
        if k > s.len() - pat.len() {
            assert(k + pat.len() > s.len());
        }
    }
}

/// The end of the trailing-whitespace scan never runs past its start.
proof fn lemma_last_non_space_end_le(s: Seq<char>, j: int)
    requires
        0 <= j,
    ensures
        0 <= last_non_space_end(s, j) <= j,
    decreases j,
{
    if j > 0 && is_space(s[j - 1]) {
        lemma_last_non_space_end_le(s, j - 1);
    }
}

/// `s` with leading and trailing whitespace removed.
pub fn trim_str<'a>(s: &'a str) -> (r: &'a str)
    ensures
        r@ == trim_spec(s@),
{
    let n = s.unicode_len();
    let mut a: usize = 0;
    while a < n && is_space_char(s.get_char(a))
        invariant
            n == s@.len(),
            n <= usize::MAX,
            0 <= a <= n,
            first_non_space(s@, 0) == first_non_space(s@, a as int),
        decreases n - a,
    {
        a += 1;
    }
    if a == n {
        proof {
            lemma_last_non_space_end_le(s@, n as int);
            assert(s@.subrange(0, 0) =~= trim_spec(s@));
        }
        return s.substring_char(0, 0);
    }
    let mut b: usize = n;
    while b > a && is_space_char(s.get_char(b - 1))
        invariant
            n == s@.len(),
            n <= usize::MAX,
            0 <= a < n,
            a + 1 <= b <= n,
            !is_space(s@[a as int]),
            last_non_space_end(s@, n as int) == last_non_space_end(s@, b as int),
        decreases b,
    {
        b -= 1;
    }
    s.substring_char(a, b)
}

/// `s` with leading whitespace removed.
pub fn trim_start_str<'a>(s: &'a str) -> (r: &'a str)
    ensures
        r@ == trim_start_spec(s@),
{
    let n = s.unicode_len();
    let mut a: usize = 0;
    while a < n && is_space_char(s.get_char(a))
        invariant
            n == s@.len(),
            n <= usize::MAX,
            0 <= a <= n,
            first_non_space(s@, 0) == first_non_space(s@, a as int),
        decreases n - a,
    {
        a += 1;
    }
    s.substring_char(a, n)
}

/// Character-for-character equality of two string slices.
pub fn str_eq(a: &str, b: &str) -> (r: bool)
    ensures
        r == (a@ == b@),
{
    let n = a.unicode_len();
    let m = b.unicode_len();
    if n != m {
        return false;
    }
    proof {
        assert(a@.subrange(0, a@.len() as int) =~= a@);
    }
    pat_at(a, b, 0)
}

} // verus!
