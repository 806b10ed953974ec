//! First-match scanning over sequences, the lookup discipline of the
//! registry: a linear scan that stops at the first element satisfying a
//! predicate.

use vstd::prelude::*;

verus! {

/// Whether some element of `s` satisfies `p`.
pub open spec fn has_match<T>(s: Seq<T>, p: spec_fn(T) -> bool) -> bool {
    exists|i: int| 0 <= i < s.len() && p(s[i])
}

/// Index of the first element of `s` satisfying `p`; `s.len()` when none
/// does.
pub open spec fn first_match<T>(s: Seq<T>, p: spec_fn(T) -> bool) -> int
    decreases s.len(),
{
    if s.len() == 0 {
        0
    } else if p(s[0]) {
        0
    } else {
        1 + first_match(s.skip(1), p)
    }
}

/// `first_match` is the least matching index when a match exists, and
/// `s.len()` otherwise.
pub proof fn lemma_first_match<T>(s: Seq<T>, p: spec_fn(T) -> bool)
    ensures
        has_match(s, p) ==> {
            let i = first_match(s, p);
            &&& 0 <= i < s.len()
            &&& p(s[i])
            &&& forall|j: int| 0 <= j < i ==> !p(s[j])
        },
        !has_match(s, p) ==> first_match(s, p) == s.len(),
    decreases s.len(),
{
    if s.len() == 0 {
    } else if p(s[0]) {
        assert(has_match(s, p));
    } else {
        lemma_first_match(s.skip(1), p);
        assert(forall|j: int| 0 <= j < s.skip(1).len() ==> s.skip(1)[j] == s[j + 1]);
        if has_match(s, p) {
            let w = choose|i: int| 0 <= i < s.len() && p(s[i]);
            assert(p(s.skip(1)[w - 1]));
            assert(has_match(s.skip(1), p));
            let i1 = first_match(s.skip(1), p);
            assert(first_match(s, p) == 1 + i1);
            assert(p(s[i1 + 1]));
            assert forall|j: int| 0 <= j < 1 + i1 implies !p(s[j]) by {
                if j > 0 {
                    assert(!p(s.skip(1)[j - 1]));
                }
            }
        } else {
            assert(forall|i: int| 0 <= i < s.skip(1).len() ==> !p(s.skip(1)[i]));
            assert(!has_match(s.skip(1), p));
        }
    }
}

/// Establishes `first_match(s, p) == i` from a witness at `i` with no
/// match before it.
pub proof fn lemma_first_match_at<T>(s: Seq<T>, p: spec_fn(T) -> bool, i: int)
    requires
        0 <= i < s.len(),
        p(s[i]),
        forall|j: int| 0 <= j < i ==> !p(s[j]),
    ensures
        has_match(s, p),
        first_match(s, p) == i,
{
    assert(has_match(s, p));
    lemma_first_match(s, p);
    let f = first_match(s, p);
    if f < i {
        assert(!p(s[f]));
    }
    if f > i {
        assert(!p(s[i]));
    }
}

} // verus!
