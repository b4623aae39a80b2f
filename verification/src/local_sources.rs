//! The order in which the files of an upload selection are queued: by their
//! path relative to the selected root, compared component by component.
//!
//! Relative paths are `/`-separated without empty components, so comparing
//! them component by component is comparing them character by character
//! with `/` placed before every other character: where two paths first
//! differ, the one whose component ends there comes first.

use vstd::prelude::*;
use crate::sftp_queue::LocalTransferEntry;
use crate::text::chars_of;

verus! {

/// `a` comes before `b`, or they are equal.
pub open spec fn path_le(a: Seq<char>, b: Seq<char>) -> bool
    decreases a.len(),
{
    if a.len() == 0 {
        true
    } else if b.len() == 0 {
        false
    } else if a[0] == b[0] {
        path_le(a.drop_first(), b.drop_first())
    } else if a[0] == '/' {
        true
    } else if b[0] == '/' {
        false
    } else {
        a[0] < b[0]
    }
}

pub proof fn lemma_path_le_total(a: Seq<char>, b: Seq<char>)
    ensures
        path_le(a, b) || path_le(b, a),
    decreases a.len(),
{
    if a.len() > 0 && b.len() > 0 && a[0] == b[0] {
        lemma_path_le_total(a.drop_first(), b.drop_first());
    }
}

pub proof fn lemma_path_le_transitive(a: Seq<char>, b: Seq<char>, c: Seq<char>)
    requires
        path_le(a, b),
        path_le(b, c),
    ensures
        path_le(a, c),
    decreases a.len(),
{
    if a.len() > 0 && b.len() > 0 && c.len() > 0 && a[0] == b[0] && b[0] == c[0] {
        lemma_path_le_transitive(a.drop_first(), b.drop_first(), c.drop_first());
    }
}

pub open spec fn entry_le(a: LocalTransferEntry, b: LocalTransferEntry) -> bool {
    path_le(a.relative_path@, b.relative_path@)
}

/// Every entry's relative path comes no later than those after it.
pub open spec fn sorted_by_relative_path(s: Seq<LocalTransferEntry>) -> bool {
    forall|i: int, j: int| 0 <= i < j < s.len() ==> entry_le(#[trigger] s[i], #[trigger] s[j])
}

fn path_le_exec(a: &str, b: &str) -> (r: bool)
    ensures
        r == path_le(a@, b@),
{
    let x = chars_of(a);
    let y = chars_of(b);
    let mut k: usize = 0;
    assert(x@.skip(0) =~= x@);
    assert(y@.skip(0) =~= y@);
    while k < x.len() && k < y.len()
        invariant
            k <= x.len(),
            k <= y.len(),
            x@ == a@,
            y@ == b@,
            path_le(x@.skip(k as int), y@.skip(k as int)) == path_le(a@, b@),
        decreases x.len() - k,
    {
        let ghost xs = x@.skip(k as int);
        let ghost ys = y@.skip(k as int);
        assert(xs[0] == x@[k as int]);
        assert(ys[0] == y@[k as int]);
        let cx = x[k];
        let cy = y[k];
        assert(xs.len() > 0 && ys.len() > 0);
        if cx != cy {
            if cx == '/' {
                return true;
            }
            if cy == '/' {
                return false;
            }
            return cx < cy;
        }
        assert(xs.drop_first() =~= x@.skip(k + 1));
        assert(ys.drop_first() =~= y@.skip(k + 1));
        k = k + 1;
    }
    assert(x@.skip(k as int).len() == x.len() - k);
    assert(y@.skip(k as int).len() == y.len() - k);
    k == x.len()
}

fn copy_entry(e: &LocalTransferEntry) -> (r: LocalTransferEntry)
    ensures
        r == *e,
{
    LocalTransferEntry {
        local_path: e.local_path.clone(),
        relative_path: e.relative_path.clone(),
        bytes_total: e.bytes_total,
    }
}

/// The entries ordered by relative path; entries with the same relative
/// path keep their order.
pub fn sort_local_sources(entries: &Vec<LocalTransferEntry>) -> (r: Vec<LocalTransferEntry>)
    ensures
        sorted_by_relative_path(r@),
        r@.to_multiset() == entries@.to_multiset(),
{
    let mut out: Vec<LocalTransferEntry> = Vec::new();
    let mut i: usize = 0;
    assert(entries@.take(0) =~= out@);
    while i < entries.len()
        invariant
            i <= entries.len(),
            sorted_by_relative_path(out@),
            out@.to_multiset() == entries@.take(i as int).to_multiset(),
        decreases entries.len() - i,
    {
        let x = copy_entry(&entries[i]);
        let mut p: usize = 0;
        while p < out.len() && path_le_exec(out[p].relative_path.as_str(), x.relative_path.as_str())
            invariant
                p <= out.len(),
                forall|k: int| 0 <= k < p ==> entry_le(#[trigger] out@[k], x),
            decreases out.len() - p,
        {
            p = p + 1;
        }
        proof {
            assert forall|k: int| p <= k < out@.len() implies entry_le(x, #[trigger] out@[k]) by {
                if p < out@.len() {
                    if entry_le(out@[k], x) {
                        lemma_path_le_transitive(out@[p as int].relative_path@, out@[k].relative_path@, x.relative_path@);
                    }
                    lemma_path_le_total(out@[k].relative_path@, x.relative_path@);
                }
            }
            vstd::seq_lib::to_multiset_insert(out@, p as int, x);
            entries@.take(i as int).to_multiset_ensures();
            assert(entries@.take(i as int + 1) =~= entries@.take(i as int).push(x));
        }
        let ghost before = out@;
        out.insert(p, x);
        proof {
            assert forall|a: int, b: int| 0 <= a < b < out@.len() implies entry_le(#[trigger] out@[a], #[trigger] out@[b]) by {
                if a < p && b == p {
                } else if a == p && b > p {
                    assert(out@[b] == before[b - 1]);
                } else if b < p {
                    assert(out@[a] == before[a] && out@[b] == before[b]);
                } else if a < p {
                    assert(out@[a] == before[a] && out@[b] == before[b - 1]);
                } else {
                    assert(out@[a] == before[a - 1] && out@[b] == before[b - 1]);
                }
            }
        }
        i = i + 1;
    }
    assert(entries@.take(entries.len() as int) =~= entries@);
    out
}

} // verus!
