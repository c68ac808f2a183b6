//! Character-level text helpers: whitespace trimming and locating single
//! characters, stated over the `Seq<char>` view of a string.

use vstd::prelude::*;

verus! {

/// A character with the Unicode `White_Space` property, the set that
/// `str::trim` removes from both ends of a string.
pub open spec fn is_ws_char(c: char) -> bool {
    let u = c as u32;
    (9 <= u && u <= 13) || u == 32 || u == 0x85 || u == 0xA0 || u == 0x1680 || (0x2000 <= u
        && u <= 0x200A) || u == 0x2028 || u == 0x2029 || u == 0x202F || u == 0x205F || u == 0x3000
}

pub fn is_ws(c: char) -> (r: bool)
    ensures
        r == is_ws_char(c),
{
    let u = c as u32;
    (9 <= u && u <= 13) || u == 32 || u == 0x85 || u == 0xA0 || u == 0x1680 || (0x2000 <= u
        && u <= 0x200A) || u == 0x2028 || u == 0x2029 || u == 0x202F || u == 0x205F || u == 0x3000
}

/// Index of the first character that is not whitespace; `s.len()` if the
/// whole text is whitespace.
pub open spec fn first_non_ws(s: Seq<char>) -> int
    decreases s.len(),
{
    if s.len() == 0 {
        0
    } else if !is_ws_char(s[0]) {
        0
    } else {
        1 + first_non_ws(s.subrange(1, s.len() as int))
    }
}

/// One past the index of the last character that is not whitespace; 0 if
/// the whole text is whitespace.
pub open spec fn last_non_ws_end(s: Seq<char>) -> int
    decreases s.len(),
{
    if s.len() == 0 {
        0
    } else if !is_ws_char(s.last()) {
        s.len() as int
    } else {
        last_non_ws_end(s.drop_last())
    }
}

/// The text with leading and trailing whitespace removed.
pub open spec fn spec_trim(s: Seq<char>) -> Seq<char> {
    if first_non_ws(s) == s.len() {
        Seq::empty()
    } else {
        s.subrange(first_non_ws(s), last_non_ws_end(s))
    }
}

pub proof fn lemma_first_non_ws_bounds(s: Seq<char>)
    ensures
        0 <= first_non_ws(s) <= s.len(),
        forall|k: int| 0 <= k < first_non_ws(s) ==> is_ws_char(s[k]),
        first_non_ws(s) < s.len() ==> !is_ws_char(s[first_non_ws(s)]),
    decreases s.len(),
{
    if s.len() == 0 {
    } else if !is_ws_char(s[0]) {
    } else {
        let t = s.subrange(1, s.len() as int);
        lemma_first_non_ws_bounds(t);
        assert forall|k: int| 0 <= k < first_non_ws(s) implies is_ws_char(s[k]) by {
            if k > 0 {
                assert(s[k] == t[k - 1]);
            }
        }
    }
}

pub proof fn lemma_last_non_ws_end_bounds(s: Seq<char>)
    ensures
        0 <= last_non_ws_end(s) <= s.len(),
        forall|k: int| last_non_ws_end(s) <= k < s.len() ==> is_ws_char(s[k]),
        last_non_ws_end(s) > 0 ==> !is_ws_char(s[last_non_ws_end(s) - 1]),
    decreases s.len(),
{
    if s.len() == 0 {
    } else if !is_ws_char(s.last()) {
    } else {
        let t = s.drop_last();
        lemma_last_non_ws_end_bounds(t);
        assert forall|k: int| last_non_ws_end(s) <= k < s.len() implies is_ws_char(s[k]) by {
            if k < s.len() - 1 {
                assert(s[k] == t[k]);
            }
        }
    }
}

/// If the whole text is whitespace up to the last non-whitespace stretch,
/// the two scans agree: the first non-whitespace index never passes the end
/// of the last non-whitespace stretch, unless everything is whitespace.
pub proof fn lemma_trim_bounds(s: Seq<char>)
    ensures
        first_non_ws(s) < s.len() ==> first_non_ws(s) < last_non_ws_end(s),
        first_non_ws(s) == s.len() ==> last_non_ws_end(s) == 0,
{
    lemma_first_non_ws_bounds(s);
    lemma_last_non_ws_end_bounds(s);
    if first_non_ws(s) < s.len() {
        if last_non_ws_end(s) <= first_non_ws(s) {
            assert(is_ws_char(s[first_non_ws(s)]));
        }
    } else {
        if last_non_ws_end(s) > 0 {
            assert(is_ws_char(s[last_non_ws_end(s) - 1]));
        }
    }
}

/// Remove leading and trailing whitespace, as `str::trim` does.
pub fn trim_str(s: &str) -> (r: &str)
    ensures
        r@ == spec_trim(s@),
{
    proof {
        lemma_first_non_ws_bounds(s@);
        lemma_last_non_ws_end_bounds(s@);
        lemma_trim_bounds(s@);
    }
    let n = s.unicode_len();
    let mut a: usize = 0;
    while a < n && is_ws(s.get_char(a))
        invariant
            0 <= a <= n,
            n == s@.len(),
            forall|k: int| 0 <= k < a ==> is_ws_char(s@[k]),
        decreases n - a,
    {
        a = a + 1;
    }
    assert(a == first_non_ws(s@));
    if a == n {
        return s.substring_char(n, n);
    }
    let mut b: usize = n;
    while b > 0 && is_ws(s.get_char(b - 1))
        invariant
            0 <= b <= n,
            n == s@.len(),
            forall|k: int| b <= k < n ==> is_ws_char(s@[k]),
        decreases b,
    {
        b = b - 1;
    }
    assert(b == last_non_ws_end(s@));
    s.substring_char(a, b)
}

/// Index of the first occurrence of `c`; `s.len()` if `c` does not occur.
pub open spec fn first_index_of(s: Seq<char>, c: char) -> int
    decreases s.len(),
{
    if s.len() == 0 {
        0
    } else if s[0] == c {
        0
    } else {
        1 + first_index_of(s.subrange(1, s.len() as int), c)
    }
}

/// Index of the last occurrence of `c`; -1 if `c` does not occur.
pub open spec fn last_index_of(s: Seq<char>, c: char) -> int
    decreases s.len(),
{
    if s.len() == 0 {
        -1
    } else if s.last() == c {
        s.len() - 1
    } else {
        last_index_of(s.drop_last(), c)
    }
}

pub proof fn lemma_first_index_of_bounds(s: Seq<char>, c: char)
    ensures
        0 <= first_index_of(s, c) <= s.len(),
        forall|k: int| 0 <= k < first_index_of(s, c) ==> s[k] != c,
        first_index_of(s, c) < s.len() ==> s[first_index_of(s, c)] == c,
    decreases s.len(),
{
    if s.len() == 0 {
    } else if s[0] == c {
    } else {
        let t = s.subrange(1, s.len() as int);
        lemma_first_index_of_bounds(t, c);
        assert forall|k: int| 0 <= k < first_index_of(s, c) implies s[k] != c by {
            if k > 0 {
                assert(s[k] == t[k - 1]);
            }
        }
    }
}

pub proof fn lemma_last_index_of_bounds(s: Seq<char>, c: char)
    ensures
        -1 <= last_index_of(s, c) < s.len(),
        forall|k: int| last_index_of(s, c) < k < s.len() ==> s[k] != c,
        last_index_of(s, c) >= 0 ==> s[last_index_of(s, c)] == c,
    decreases s.len(),
{
    if s.len() == 0 {
    } else if s.last() == c {
    } else {
        let t = s.drop_last();
        lemma_last_index_of_bounds(t, c);
        assert forall|k: int| last_index_of(s, c) < k < s.len() implies s[k] != c by {
            if k < s.len() - 1 {
                assert(s[k] == t[k]);
            }
        }
    }
}

/// First occurrence of `c` in `s`, if any.
pub fn find_char(s: &str, c: char) -> (r: Option<usize>)
    ensures
        match r {
            Some(i) => i == first_index_of(s@, c) && i < s@.len(),
            None => first_index_of(s@, c) == s@.len(),
        },
{
    proof {
        lemma_first_index_of_bounds(s@, c);
    }
    let n = s.unicode_len();
    let mut i: usize = 0;
    while i < n && s.get_char(i) != c
        invariant
            0 <= i <= n,
            n == s@.len(),
            forall|k: int| 0 <= k < i ==> s@[k] != c,
        decreases n - i,
    {
        i = i + 1;
    }
    assert(i == first_index_of(s@, c));
    if i < n {
        Some(i)
    } else {
        None
    }
}

/// Last occurrence of `c` in `s`, if any.
pub fn rfind_char(s: &str, c: char) -> (r: Option<usize>)
    ensures
        match r {
            Some(i) => i == last_index_of(s@, c) && i < s@.len() && i < usize::MAX,
            None => last_index_of(s@, c) == -1,
        },
{
    proof {
        lemma_last_index_of_bounds(s@, c);
    }
    let n = s.unicode_len();
    let mut b: usize = n;
    while b > 0 && s.get_char(b - 1) != c
        invariant
            0 <= b <= n,
            n == s@.len(),
            forall|k: int| b <= k < n ==> s@[k] != c,
        decreases b,
    {
        b = b - 1;
    }
    assert(b - 1 == last_index_of(s@, c) || (b == 0 && last_index_of(s@, c) == -1));
    if b > 0 {
        Some(b - 1)
    } else {
        None
    }
}

} // verus!
