//! Searching and cutting text, and joining path components.

use vstd::prelude::*;
use vstd::string::*;

verus! {

/// The texts that a list of strings holds.
pub open spec fn texts(strings: Seq<String>) -> Seq<Seq<char>> {
    strings.map_values(|s: String| s@)
}

/// Whether `pat` stands in `s` at position `i`.
pub open spec fn occurs_at(s: Seq<char>, pat: Seq<char>, i: int) -> bool {
    0 <= i && i + pat.len() <= s.len() && s.subrange(i, i + pat.len()) == pat
}

/// The first position at or after `i` where `pat` stands in `s`.
pub open spec fn first_match_from(s: Seq<char>, pat: Seq<char>, i: int) -> Option<int>
    decreases s.len() + 1 - i,
{
    if i < 0 || i + pat.len() > s.len() {
        None
    } else if occurs_at(s, pat, i) {
        Some(i)
    } else {
        first_match_from(s, pat, i + 1)
    }
}

/// The first position where `pat` stands in `s`.
pub open spec fn first_match(s: Seq<char>, pat: Seq<char>) -> Option<int> {
    first_match_from(s, pat, 0)
}

/// `s` with the first occurrence of `pat` cut out; `s` itself where there is none.
pub open spec fn without_first(s: Seq<char>, pat: Seq<char>) -> Seq<char> {
    match first_match(s, pat) {
        Some(i) => s.subrange(0, i) + s.subrange(i + pat.len(), s.len() as int),
        None => s,
    }
}

/// Whether a separator has to be written between `base` and what follows it.
pub open spec fn needs_separator(base: Seq<char>) -> bool {
    base.len() > 0 && base.last() != '/'
}

/// `component` placed below `base`: the two are separated by exactly one `/`,
/// which is written only where `base` is not empty and does not end in one.
pub open spec fn joined(base: Seq<char>, component: Seq<char>) -> Seq<char> {
    if needs_separator(base) {
        base + seq!['/'] + component
    } else {
        base + component
    }
}

/// A search from `i` finds the least position at or after `i` where `pat`
/// stands, and finds nothing only where `pat` stands nowhere from `i` on.
pub proof fn lemma_first_match_is_least(s: Seq<char>, pat: Seq<char>, i: int)
    requires
        0 <= i,
    ensures
        match first_match_from(s, pat, i) {
            Some(k) => i <= k && occurs_at(s, pat, k) && forall|j: int|
                i <= j < k ==> !occurs_at(s, pat, j),
            None => forall|j: int| i <= j ==> !occurs_at(s, pat, j),
        },
    decreases s.len() + 1 - i,
{
    if i + pat.len() <= s.len() && !occurs_at(s, pat, i) {
        lemma_first_match_is_least(s, pat, i + 1);
    }
}

/// Where `pat` closes a text and occurs nowhere before that in it, cutting it
/// out leaves what stood before it.
pub proof fn lemma_without_first_cuts_suffix(stem: Seq<char>, pat: Seq<char>)
    requires
        forall|j: int| 0 <= j < stem.len() ==> !occurs_at(stem + pat, pat, j),
    ensures
        without_first(stem + pat, pat) == stem,
{
    let s = stem + pat;
    let n = stem.len() as int;
    assert(s.subrange(n, n + pat.len()) =~= pat);
    assert(occurs_at(s, pat, n));
    lemma_first_match_is_least(s, pat, 0);
    assert(first_match(s, pat) == Some(n));
    assert(s.subrange(0, n) + s.subrange(n + pat.len(), s.len() as int) =~= stem);
}

fn matches_at(s: &str, pat: &str, i: usize, n: usize, m: usize) -> (r: bool)
    requires
        n == s@.len(),
        m == pat@.len(),
        i + m <= n,
    ensures
        r == occurs_at(s@, pat@, i as int),
{
    let mut k: usize = 0;
    while k < m
        invariant
            k <= m,
            n == s@.len(),
            m == pat@.len(),
            i + m <= n,
            forall|j: int| 0 <= j < k ==> s@[i + j] == pat@[j],
        decreases m - k,
    {
        if s.get_char(i + k) != pat.get_char(k) {
            assert(s@.subrange(i as int, i + m)[k as int] == s@[i + k]);
            return false;
        }
        k += 1;
    }
    assert(s@.subrange(i as int, i + m) =~= pat@);
    true
}

/// The position, counted in characters, of the first occurrence of `pat` in
/// `s`: `pat` stands there and nowhere before; `None` where it stands nowhere.
pub fn find_first(s: &str, pat: &str) -> (r: Option<usize>)
    ensures
        match r {
            Some(i) => first_match(s@, pat@) == Some(i as int) && occurs_at(s@, pat@, i as int)
                && forall|j: int| 0 <= j < i ==> !occurs_at(s@, pat@, j),
            None => first_match(s@, pat@).is_none() && forall|j: int| !occurs_at(s@, pat@, j),
        },
{
    let n: usize = s.unicode_len();
    let m: usize = pat.unicode_len();
    if m > n {
        proof {
            lemma_first_match_is_least(s@, pat@, 0);
        }
        return None;
    }
    let last: usize = n - m;
    let mut i: usize = 0;
    loop
        invariant
            n == s@.len(),
            m == pat@.len(),
            last == n - m,
            i <= last,
            first_match(s@, pat@) == first_match_from(s@, pat@, i as int),
        decreases last - i,
    {
        proof {
            lemma_first_match_is_least(s@, pat@, 0);
        }
        if matches_at(s, pat, i, n, m) {
            return Some(i);
        }
        if i == last {
            assert(first_match_from(s@, pat@, i + 1).is_none());
            return None;
        }
        i += 1;
    }
}

/// Cuts the first occurrence of `pat` out of `s`.
pub fn remove_first(s: &str, pat: &str) -> (r: String)
    ensures
        r@ == without_first(s@, pat@),
{
    match find_first(s, pat) {
        Some(i) => {
            let n: usize = s.unicode_len();
            let m: usize = pat.unicode_len();
            proof {
                lemma_first_match_is_least(s@, pat@, 0);
            }
            let head = s.substring_char(0, i);
            let tail = s.substring_char(i + m, n);
            String::from_str(head).concat(tail)
        },
        None => String::from_str(s),
    }
}

/// Places `component` below `base`.
pub fn join_path(base: &str, component: &str) -> (r: String)
    ensures
        r@ == joined(base@, component@),
{
    let n: usize = base.unicode_len();
    let mut out = String::from_str(base);
    if n > 0 && base.get_char(n - 1) != '/' {
        proof {
            reveal_strlit("/");
        }
        assert("/"@ =~= seq!['/']);
        out.append("/");
    }
    out.append(component);
    out
}

} // verus!
