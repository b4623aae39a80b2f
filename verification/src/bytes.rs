//! Byte-sequence helpers: copying ranges, appending, and searching for markers.

use vstd::prelude::*;
use vstd::utf8::{decode_utf8, valid_utf8};

verus! {

/// What `String::from_utf8_lossy` makes of a byte sequence.
pub uninterp spec fn utf8_lossy_text(bytes: Seq<u8>) -> Seq<char>;

/// `String::from_utf8_lossy`, as an owned string. The result is named by
/// `utf8_lossy_text`; of it the contract states only what the documentation
/// says plainly: valid UTF-8 is decoded unchanged.
#[verifier::external_body]
pub fn utf8_lossy(bytes: &[u8]) -> (r: String)
    ensures
        r@ == utf8_lossy_text(bytes@),
        valid_utf8(bytes@) ==> r@ == decode_utf8(bytes@),
{
    String::from_utf8_lossy(bytes).into_owned()
}


/// `needle` occurs in `haystack` at `i`.
pub open spec fn occurs_at(haystack: Seq<u8>, needle: Seq<u8>, i: int) -> bool {
    0 <= i && i + needle.len() <= haystack.len() && haystack.subrange(i, i + needle.len()) == needle
}

/// The first position at or after `from` where `needle` occurs in `haystack`.
pub open spec fn first_occurrence_from(haystack: Seq<u8>, needle: Seq<u8>, from: int) -> Option<int>
    decreases haystack.len() - from,
{
    if from < 0 || from + needle.len() > haystack.len() {
        None
    } else if haystack.subrange(from, from + needle.len()) == needle {
        Some(from)
    } else if from >= haystack.len() {
        None
    } else {
        first_occurrence_from(haystack, needle, from + 1)
    }
}

/// The first position where `needle` occurs in `haystack`.
pub open spec fn first_occurrence(haystack: Seq<u8>, needle: Seq<u8>) -> Option<int> {
    first_occurrence_from(haystack, needle, 0)
}

/// `first_occurrence_from` finds the earliest occurrence at or after `from`.
pub proof fn lemma_first_occurrence_from(haystack: Seq<u8>, needle: Seq<u8>, from: int)
    requires
        0 <= from,
    ensures
        match first_occurrence_from(haystack, needle, from) {
            Some(i) => from <= i && occurs_at(haystack, needle, i)
                && forall|j: int| from <= j < i ==> !#[trigger] occurs_at(haystack, needle, j),
            None => forall|j: int| from <= j ==> !#[trigger] occurs_at(haystack, needle, j),
        },
    decreases haystack.len() - from,
{
    if from + needle.len() > haystack.len() {
    } else if haystack.subrange(from, from + needle.len()) == needle {
    } else if from >= haystack.len() {
        assert(haystack.subrange(from, from + needle.len()) =~= needle);
    } else {
        lemma_first_occurrence_from(haystack, needle, from + 1);
    }
}

/// A copy of `v[from..to]`.
pub fn copy_range(v: &[u8], from: usize, to: usize) -> (r: Vec<u8>)
    requires
        from <= to <= v@.len(),
    ensures
        r@ == v@.subrange(from as int, to as int),
{
    let mut r: Vec<u8> = Vec::new();
    let mut i: usize = from;
    while i < to
        invariant
            from <= i <= to,
            to <= v@.len(),
            r@ == v@.subrange(from as int, i as int),
        decreases to - i,
    {
        r.push(v[i]);
        i = i + 1;
        assert(r@ =~= v@.subrange(from as int, i as int));
    }
    r
}

/// Appends `v[from..to]` to `out`.
pub fn extend_range(out: &mut Vec<u8>, v: &[u8], from: usize, to: usize)
    requires
        from <= to <= v@.len(),
    ensures
        final(out)@ == old(out)@ + v@.subrange(from as int, to as int),
{
    let ghost start = out@;
    let mut i: usize = from;
    while i < to
        invariant
            from <= i <= to,
            to <= v@.len(),
            out@ == start + v@.subrange(from as int, i as int),
        decreases to - i,
    {
        out.push(v[i]);
        i = i + 1;
        assert(out@ =~= start + v@.subrange(from as int, i as int));
    }
}

/// `haystack[at..]` starts with `needle`.
pub fn matches_at(haystack: &[u8], needle: &[u8], at: usize) -> (r: bool)
    requires
        at + needle@.len() <= haystack@.len(),
    ensures
        r == (haystack@.subrange(at as int, at + needle@.len()) == needle@),
{
    let n = haystack.len();
    let mut k: usize = 0;
    while k < needle.len()
        invariant
            k <= needle@.len(),
            n == haystack@.len(),
            at + needle@.len() <= haystack@.len(),
            forall|j: int| 0 <= j < k ==> haystack@[at + j] == needle@[j],
        decreases needle.len() - k,
    {
        if haystack[at + k] != needle[k] {
            assert(haystack@.subrange(at as int, at + needle@.len())[k as int] != needle@[k as int]);
            return false;
        }
        k = k + 1;
    }
    assert(haystack@.subrange(at as int, at + needle@.len()) =~= needle@);
    true
}

/// The first position of `needle` in `haystack` (position 0 for an empty needle).
pub fn find_subsequence(haystack: &[u8], needle: &[u8]) -> (r: Option<usize>)
    ensures
        r matches Some(i) ==> first_occurrence(haystack@, needle@) == Some(i as int),
        r is None ==> first_occurrence(haystack@, needle@) is None,
{
    if needle.len() > haystack.len() {
        return None;
    }
    let last = haystack.len() - needle.len();
    let mut i: usize = 0;
    loop
        invariant
            last + needle@.len() == haystack@.len(),
            i <= last,
            first_occurrence(haystack@, needle@) == first_occurrence_from(haystack@, needle@, i as int),
        decreases last - i,
    {
        if matches_at(haystack, needle, i) {
            return Some(i);
        }
        if i == last {
            return None;
        }
        i = i + 1;
    }
}

/// `b` ends with `m`.
pub open spec fn has_suffix(b: Seq<u8>, m: Seq<u8>) -> bool {
    m.len() <= b.len() && b.skip(b.len() - m.len()) == m
}

/// `v` ends with `tail`.
pub fn ends_with_bytes(v: &[u8], tail: &[u8]) -> (r: bool)
    ensures
        r == has_suffix(v@, tail@),
{
    if tail.len() > v.len() {
        return false;
    }
    let r = matches_at(v, tail, v.len() - tail.len());
    assert(v@.subrange(v@.len() - tail@.len(), v@.len() as int) =~= v@.skip(v@.len() - tail@.len()));
    r
}

} // verus!
