//! Small verified string utilities: character-exact equality, first
//! occurrence of a character or of a substring, and containment.

use vstd::prelude::*;

verus! {

/// Whether `pat` occurs in `s` starting at position `i`.
pub open spec fn occurs_at(s: Seq<char>, pat: Seq<char>, i: int) -> bool {
    0 <= i && i + pat.len() <= s.len() && s.subrange(i, i + pat.len() as int) == pat
}

/// The position of the first `c` in `s` at or after `from`, or `s.len()`
/// when there is none.
pub open spec fn first_at_or_after(s: Seq<char>, c: char, from: int) -> int
    decreases s.len() - from,
{
    if from < 0 || from >= s.len() {
        s.len() as int
    } else if s[from] == c {
        from
    } else {
        first_at_or_after(s, c, from + 1)
    }
}

/// The position of the first occurrence of `pat` in `s` at or after `from`,
/// or `s.len()` when there is none.
pub open spec fn first_match_at_or_after(s: Seq<char>, pat: Seq<char>, from: int) -> int
    decreases s.len() - from,
{
    if from < 0 || from + pat.len() > s.len() {
        s.len() as int
    } else if pat.len() == 0 {
        from
    } else if occurs_at(s, pat, from) {
        from
    } else {
        first_match_at_or_after(s, pat, from + 1)
    }
}

/// What `first_at_or_after` returns: the least index of `c` in `s[from..]`.
pub proof fn lemma_first_at_or_after(s: Seq<char>, c: char, from: int)
    requires
        0 <= from <= s.len(),
    ensures
        from <= first_at_or_after(s, c, from) <= s.len(),
        first_at_or_after(s, c, from) < s.len() ==> s[first_at_or_after(s, c, from)] == c,
        forall|j: int| from <= j < first_at_or_after(s, c, from) ==> s[j] != c,
    decreases s.len() - from,
{
    if from < s.len() && s[from] != c {
        lemma_first_at_or_after(s, c, from + 1);
    }
}

/// What `first_match_at_or_after` returns: the least start position of
/// `pat` in `s` at or after `from`.
pub proof fn lemma_first_match_at_or_after(s: Seq<char>, pat: Seq<char>, from: int)
    requires
        0 <= from <= s.len(),
    ensures
        from <= first_match_at_or_after(s, pat, from) <= s.len(),
        first_match_at_or_after(s, pat, from) <= s.len() - pat.len() ==> occurs_at(
            s,
            pat,
            first_match_at_or_after(s, pat, from),
        ),
        forall|j: int| from <= j < first_match_at_or_after(s, pat, from) ==> !occurs_at(s, pat, j),
    decreases s.len() - from,
{
    if pat.len() == 0 && from + pat.len() <= s.len() {
        assert(s.subrange(from, from) =~= pat);
    }
    if !(from + pat.len() > s.len()) && pat.len() > 0 && !occurs_at(s, pat, from) {
        lemma_first_match_at_or_after(s, pat, from + 1);
        assert forall|j: int|
            from <= j < first_match_at_or_after(s, pat, from) implies !occurs_at(s, pat, j) by {
            if j == from {
            } else {
                assert(!occurs_at(s, pat, j));
            }
        }
    }
}

/// Character-exact equality of two string slices.
pub fn str_eq(a: &str, b: &str) -> (r: bool)
    ensures
        r == (a@ == b@),
{
    let na = a.unicode_len();
    let nb = b.unicode_len();
    if na != nb {
        return false;
    }
    let mut i: usize = 0;
    while i < na
        invariant
            i <= na,
            na == a@.len(),
            na == b@.len(),
            forall|j: int| 0 <= j < i ==> a@[j] == b@[j],
        decreases na - i,
    {
        if a.get_char(i) != b.get_char(i) {
            return false;
        }
        i += 1;
    }
    proof {
        assert(a@ =~= b@);
    }
    true
}

/// Whether `pat` occurs in `s` at position `i` (both in characters).
fn matches_at(s: &str, pat: &str, i: usize, s_len: usize, pat_len: usize) -> (r: bool)
    requires
        s_len == s@.len(),
        pat_len == pat@.len(),
        i + pat_len <= s_len,
    ensures
        r == occurs_at(s@, pat@, i as int),
{
    let mut k: usize = 0;
    while k < pat_len
        invariant
            k <= pat_len,
            s_len == s@.len(),
            pat_len == pat@.len(),
            i + pat_len <= s_len,
            forall|j: int| 0 <= j < k ==> s@[i + j] == pat@[j],
        decreases pat_len - k,
    {
        if s.get_char(i + k) != pat.get_char(k) {
            proof {
                assert(s@.subrange(i as int, i + pat@.len()) != pat@) by {
                    assert(s@.subrange(i as int, i + pat@.len())[k as int] != pat@[k as int]);
                }
            }
            return false;
        }
        k += 1;
    }
    proof {
        assert(s@.subrange(i as int, i + pat@.len()) =~= pat@);
    }
    true
}

/// Whether `pat` occurs in `s` at position `i`.
pub fn occurs_at_exec(s: &str, pat: &str, i: usize) -> (r: bool)
    ensures
        r == occurs_at(s@, pat@, i as int),
{
    let n = s.unicode_len();
    let m = pat.unicode_len();
    if i > n || m > n - i {
        return false;
    }
    matches_at(s, pat, i, n, m)
}

/// ASCII whitespace, the kind trimmed off hand-typed or wire text.
pub open spec fn is_ascii_space(c: char) -> bool {
    c == ' ' || c == '\t' || c == '\n' || c == '\r'
}

/// Whether a character is ASCII whitespace.
pub fn is_space_exec(c: char) -> (r: bool)
    ensures
        r == is_ascii_space(c),
{
    c == ' ' || c == '\t' || c == '\n' || c == '\r'
}

/// The first occurrence of the character `c` in `s` at or after `from`.
pub fn find_char_from(s: &str, c: char, from: usize) -> (r: Option<usize>)
    requires
        from <= s@.len(),
    ensures
        ({
            let k = first_at_or_after(s@, c, from as int);
            if k < s@.len() {
                r == Some(k as usize)
            } else {
                r is None
            }
        }),
{
    let n = s.unicode_len();
    let mut i: usize = from;
    while i < n
        invariant
            from <= i <= n,
            n == s@.len(),
            forall|j: int| from <= j < i ==> s@[j] != c,
        decreases n - i,
    {
        if s.get_char(i) == c {
            proof {
                lemma_first_at_or_after(s@, c, from as int);
                let k = first_at_or_after(s@, c, from as int);
                assert(!(k < i)) by {
                    if k < i {
                        assert(s@[k] != c);
                    }
                }
                assert(!(i < k)) by {
                    if i < k {
                        assert(s@[i as int] != c);
                    }
                }
            }
            return Some(i);
        }
        i += 1;
    }
    proof {
        lemma_first_at_or_after(s@, c, from as int);
        let k = first_at_or_after(s@, c, from as int);
        assert(!(k < s@.len())) by {
            if k < s@.len() {
                assert(s@[k] != c);
            }
        }
    }
    None
}

/// The first occurrence of the substring `pat` in `s` at or after `from`.
pub fn find_from(s: &str, pat: &str, from: usize) -> (r: Option<usize>)
    requires
        from <= s@.len(),
    ensures
        ({
            let k = first_match_at_or_after(s@, pat@, from as int);
            if k <= s@.len() - pat@.len() {
                r == Some(k as usize)
            } else {
                r is None
            }
        }),
{
    let n = s.unicode_len();
    let m = pat.unicode_len();
    if m == 0 {
        proof {
            assert(s@.subrange(from as int, from as int) =~= pat@);
            lemma_first_match_at_or_after(s@, pat@, from as int);
            let k = first_match_at_or_after(s@, pat@, from as int);
            assert(!(k < from)) by {
                if k < from {
                }
            }
            assert(!(from < k)) by {
                if from < k {
                    assert(!occurs_at(s@, pat@, from as int));
                }
            }
        }
        return Some(from);
    }
    if m > n || from > n - m {
        proof {
            lemma_first_match_at_or_after(s@, pat@, from as int);
            let k = first_match_at_or_after(s@, pat@, from as int);
            assert(!(k <= s@.len() - pat@.len())) by {
                if k <= s@.len() - pat@.len() {
                    assert(occurs_at(s@, pat@, k));
                    assert(k >= from);
                }
            }
        }
        return None;
    }
    let mut i: usize = from;
    while i <= n - m
        invariant
            from <= i,
            i <= n - m + 1,
            1 <= m <= n,
            n == s@.len(),
            m == pat@.len(),
            forall|j: int| from <= j < i ==> !occurs_at(s@, pat@, j),
        decreases n - i,
    {
        if matches_at(s, pat, i, n, m) {
            proof {
                lemma_first_match_at_or_after(s@, pat@, from as int);
                let k = first_match_at_or_after(s@, pat@, from as int);
                assert(!(k < i)) by {
                    if k < i {
                        assert(!occurs_at(s@, pat@, k));
                    }
                }
                assert(!(i < k)) by {
                    if i < k {
                        assert(!occurs_at(s@, pat@, i as int));
                    }
                }
            }
            return Some(i);
        }
        i += 1;
    }
    proof {
        lemma_first_match_at_or_after(s@, pat@, from as int);
        let k = first_match_at_or_after(s@, pat@, from as int);
        assert(!(k <= s@.len() - pat@.len())) by {
            if k <= s@.len() - pat@.len() {
                assert(occurs_at(s@, pat@, k));
                assert(k >= from);
                assert(!occurs_at(s@, pat@, k));
            }
        }
    }
    None
}

/// Whether `s` contains the substring `pat`.
pub fn contains_sub(s: &str, pat: &str) -> (r: bool)
    ensures
        r == exists|i: int| occurs_at(s@, pat@, i),
{
    proof {
        lemma_first_match_at_or_after(s@, pat@, 0);
    }
    let r = find_from(s, pat, 0);
    proof {
        let k = first_match_at_or_after(s@, pat@, 0);
        if k <= s@.len() - pat@.len() {
            assert(occurs_at(s@, pat@, k));
        } else {
            assert forall|i: int| !occurs_at(s@, pat@, i) by {
                if 0 <= i && i + pat@.len() <= s@.len() {
                    assert(i < k ==> !occurs_at(s@, pat@, i));
                }
            }
        }
    }
    r.is_some()
}

} // verus!
