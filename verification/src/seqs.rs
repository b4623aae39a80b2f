//! Generic facts about sequences: the first element satisfying a predicate,
//! and filtering one element at a time.

use vstd::prelude::*;

verus! {

/// Index of the first element of `s` that satisfies `p`, or -1.
pub open spec fn first_where<A>(s: Seq<A>, p: spec_fn(A) -> bool) -> int {
    if exists|i: int| 0 <= i < s.len() && p(s[i]) {
        choose|i: int| 0 <= i < s.len() && p(s[i]) && forall|j: int| 0 <= j < i ==> !p(s[j])
    } else {
        -1
    }
}

/// `first_where` is characterised by the first hit.
pub proof fn lemma_first_where_is<A>(s: Seq<A>, p: spec_fn(A) -> bool, k: int)
    requires
        -1 <= k < s.len(),
        k >= 0 ==> p(s[k]),
        forall|j: int| 0 <= j < (if k >= 0 { k } else { s.len() as int }) ==> !p(#[trigger] s[j]),
    ensures
        first_where(s, p) == k,
{
    if k >= 0 {
        assert(p(s[k]) && forall|j: int| 0 <= j < k ==> !p(s[j]));
        let i = first_where(s, p);
        assert(0 <= i < s.len() && p(s[i]) && forall|j: int| 0 <= j < i ==> !p(s[j]));
        if i < k {
            assert(!p(s[i]));
        }
        if k < i {
            assert(!p(s[k]));
        }
    } else {
        assert(!(exists|i: int| 0 <= i < s.len() && p(s[i]))) by {
            if exists|i: int| 0 <= i < s.len() && p(s[i]) {
                let i = choose|i: int| 0 <= i < s.len() && p(s[i]);
                assert(!p(s[i]));
            }
        }
    }
}

/// What `first_where` gives: -1 when no element satisfies `p`, else the
/// index of an element that does, with none before it.
pub proof fn lemma_first_where_hit<A>(s: Seq<A>, p: spec_fn(A) -> bool)
    ensures
        -1 <= first_where(s, p) < s.len(),
        first_where(s, p) >= 0 ==> p(s[first_where(s, p)]),
        forall|j: int| 0 <= j < (if first_where(s, p) >= 0 { first_where(s, p) } else { s.len() as int }) ==> !p(#[trigger] s[j]),
{
    if exists|i: int| 0 <= i < s.len() && p(s[i]) {
        let i0 = choose|i: int| 0 <= i < s.len() && p(s[i]);
        lemma_first_hit_exists(s, p, i0);
    } else {
        assert forall|j: int| 0 <= j < s.len() implies !p(#[trigger] s[j]) by {
            if p(s[j]) {
                assert(0 <= j < s.len() && p(s[j]));
            }
        }
    }
}

/// Below a hit at `i0` there is a first hit.
proof fn lemma_first_hit_exists<A>(s: Seq<A>, p: spec_fn(A) -> bool, i0: int)
    requires
        0 <= i0 < s.len(),
        p(s[i0]),
    ensures
        exists|i: int| 0 <= i < s.len() && p(s[i]) && forall|j: int| 0 <= j < i ==> !p(s[j]),
    decreases i0,
{
    if exists|j: int| 0 <= j < i0 && p(s[j]) {
        let j = choose|j: int| 0 <= j < i0 && p(s[j]);
        lemma_first_hit_exists(s, p, j);
    } else {
        assert(0 <= i0 < s.len() && p(s[i0]) && forall|j: int| 0 <= j < i0 ==> !p(s[j]));
    }
}

/// Index of the last element of `s` that satisfies `p`, or -1.
pub open spec fn last_where<A>(s: Seq<A>, p: spec_fn(A) -> bool) -> int {
    if exists|i: int| 0 <= i < s.len() && p(s[i]) {
        choose|i: int| 0 <= i < s.len() && p(s[i]) && forall|j: int| i < j < s.len() ==> !p(s[j])
    } else {
        -1
    }
}

/// `last_where` is characterised by the last hit.
pub proof fn lemma_last_where_is<A>(s: Seq<A>, p: spec_fn(A) -> bool, k: int)
    requires
        -1 <= k < s.len(),
        k >= 0 ==> p(s[k]),
        forall|j: int| k < j < s.len() ==> !p(#[trigger] s[j]),
    ensures
        last_where(s, p) == k,
{
    if k >= 0 {
        assert(p(s[k]) && forall|j: int| k < j < s.len() ==> !p(s[j]));
        let i = last_where(s, p);
        assert(0 <= i < s.len() && p(s[i]) && forall|j: int| i < j < s.len() ==> !p(s[j]));
        if i < k {
            assert(!p(s[k]));
        }
        if k < i {
            assert(!p(s[i]));
        }
    } else {
        assert(!(exists|i: int| 0 <= i < s.len() && p(s[i]))) by {
            if exists|i: int| 0 <= i < s.len() && p(s[i]) {
                let i = choose|i: int| 0 <= i < s.len() && p(s[i]);
                assert(!p(s[i]));
            }
        }
    }
}

pub proof fn lemma_filter_push<A>(s: Seq<A>, x: A, p: spec_fn(A) -> bool)
    ensures
        s.push(x).filter(p) == (if p(x) { s.filter(p).push(x) } else { s.filter(p) }),
{
    reveal(Seq::filter);
    assert(s.push(x).drop_last() =~= s);
}

pub proof fn lemma_take_push<A>(s: Seq<A>, i: int)
    requires
        0 <= i < s.len(),
    ensures
        s.take(i + 1) == s.take(i).push(s[i]),
{
    assert(s.take(i + 1) =~= s.take(i).push(s[i]));
}

/// Filtering the first `i + 1` elements adds at most `s[i]` to filtering the
/// first `i`.
pub proof fn lemma_filter_take_step<A>(s: Seq<A>, i: int, p: spec_fn(A) -> bool)
    requires
        0 <= i < s.len(),
    ensures
        s.take(i + 1).filter(p) == (if p(s[i]) { s.take(i).filter(p).push(s[i]) } else { s.take(i).filter(p) }),
{
    lemma_take_push(s, i);
    lemma_filter_push(s.take(i), s[i], p);
}

} // verus!
