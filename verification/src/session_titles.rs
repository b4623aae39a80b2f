//! The titles of session tabs: the first session of a profile is titled by
//! the profile's name, later ones by the name and the lowest free number,
//! `name(2)`, `name(3)`, and so on.

use vstd::prelude::*;
use crate::format::{dec_digits, dec_string};
use crate::numbers::{parse_usize, parse_usize_spec};
use crate::text::{cat, cat3, chars_of, same_text, substring, trim, trim_str};

verus! {

/// The slot that `title` takes among the titles of `base`: the bare name is
/// slot 1, `base(n)` is slot `n` for `n` of at least 2.
pub open spec fn title_slot(title: Seq<char>, base: Seq<char>) -> Option<usize> {
    if title == base {
        Some(1)
    } else if title.len() >= base.len() + 2 && title.take(base.len() as int) == base && title[base.len() as int] == '('
        && title.last() == ')' {
        match parse_usize_spec(title.subrange(base.len() + 1 as int, title.len() - 1 as int)) {
            Some(n) => if n >= 2 { Some(n) } else { None },
            None => None,
        }
    } else {
        None
    }
}

pub fn session_title_slot(title: &str, base_title: &str) -> (r: Option<usize>)
    ensures
        r == title_slot(title@, base_title@),
{
    if same_text(title, base_title) {
        return Some(1);
    }
    let t = chars_of(title);
    let b = chars_of(base_title);
    if t.len() < 2 || t.len() - 2 < b.len() {
        return None;
    }
    let head = substring(title, 0, b.len());
    if !same_text(head.as_str(), base_title) {
        return None;
    }
    if t[b.len()] != '(' || t[t.len() - 1] != ')' {
        return None;
    }
    let inner = substring(title, b.len() + 1, t.len() - 1);
    match parse_usize(inner.as_str()) {
        Some(n) => if n >= 2 { Some(n) } else { None },
        None => None,
    }
}

/// Slot `n` is taken by an open session of a profile named `base` (once
/// trimmed): `sessions` pairs each open session's profile name with its title.
pub open spec fn slot_used(sessions: Seq<(String, String)>, base: Seq<char>, n: int) -> bool {
    exists|i: int| 0 <= i < sessions.len() && #[trigger] slot_of(sessions, base, i) == n
}

pub open spec fn slot_of(sessions: Seq<(String, String)>, base: Seq<char>, i: int) -> int {
    if 0 <= i < sessions.len() && trim(sessions[i].0@) == base {
        match title_slot(sessions[i].1@, base) {
            Some(n) => n as int,
            None => 0,
        }
    } else {
        0
    }
}

/// The title for slot `n` of `base`.
pub open spec fn slot_title(base: Seq<char>, n: int) -> Seq<char> {
    if n == 1 { base } else { base + "("@ + dec_digits(n as nat) + ")"@ }
}

/// Every slot from 1 to `k` taken means at least `k` sessions.
proof fn lemma_taken_slots_bounded(sessions: Seq<(String, String)>, base: Seq<char>, k: int)
    requires
        k >= 0,
        forall|m: int| 1 <= m <= k ==> slot_used(sessions, base, m),
    ensures
        k <= sessions.len(),
{
    let idx = vstd::set_lib::set_int_range(0, sessions.len() as int);
    let f = |i: int| slot_of(sessions, base, i);
    let used = idx.map(f);
    let slots = vstd::set_lib::set_int_range(1, k + 1);
    vstd::set_lib::lemma_int_range(0, sessions.len() as int);
    vstd::set_lib::lemma_int_range(1, k + 1);
    vstd::set_lib::lemma_map_size_bound(idx, used, f);
    assert forall|m: int| slots.contains(m) implies used.contains(m) by {
        assert(slot_used(sessions, base, m));
        let i = choose|i: int| 0 <= i < sessions.len() && #[trigger] slot_of(sessions, base, i) == m;
        assert(idx.contains(i) && f(i) == m);
    }
    vstd::set_lib::lemma_len_subset(slots, used);
}

fn slot_taken(sessions: &[(String, String)], base: &str, n: usize) -> (r: bool)
    requires
        n >= 1,
    ensures
        r == slot_used(sessions@, base@, n as int),
{
    let mut i: usize = 0;
    while i < sessions.len()
        invariant
            n >= 1,
            i <= sessions.len(),
            forall|j: int| 0 <= j < i ==> #[trigger] slot_of(sessions@, base@, j) != n,
        decreases sessions.len() - i,
    {
        let name = trim_str(sessions[i].0.as_str());
        if same_text(name.as_str(), base) {
            match session_title_slot(sessions[i].1.as_str(), base) {
                Some(slot) => {
                    if slot == n {
                        assert(slot_of(sessions@, base@, i as int) == n);
                        return true;
                    }
                },
                None => {},
            }
        }
        i = i + 1;
    }
    false
}

/// The title for a new session of a profile named `base_title`: the trimmed
/// name with the lowest slot that no open session of a profile of that name
/// takes (no number for slot 1); empty for a blank name.
pub fn next_session_display_title(sessions: &[(String, String)], base_title: &str) -> (r: String)
    requires
        sessions@.len() < usize::MAX,
    ensures
        trim(base_title@).len() == 0 ==> r@.len() == 0,
        trim(base_title@).len() > 0 ==> exists|n: int| {
            &&& 1 <= n
            &&& !slot_used(sessions@, trim(base_title@), n)
            &&& (forall|m: int| 1 <= m < n ==> slot_used(sessions@, trim(base_title@), m))
            &&& r@ == slot_title(trim(base_title@), n)
        },
{
    let base = trim_str(base_title);
    if base.as_str().unicode_len() == 0 {
        return String::new();
    }
    let mut n: usize = 1;
    loop
        invariant
            1 <= n <= sessions@.len() + 1,
            base@ == trim(base_title@),
            forall|m: int| 1 <= m < n ==> slot_used(sessions@, base@, m),
            sessions@.len() < usize::MAX,
        ensures
            1 <= n,
            base@ == trim(base_title@),
            forall|m: int| 1 <= m < n ==> slot_used(sessions@, base@, m),
            !slot_used(sessions@, base@, n as int),
        decreases sessions@.len() + 1 - n,
    {
        if !slot_taken(sessions, base.as_str(), n) {
            break;
        }
        proof {
            lemma_taken_slots_bounded(sessions@, base@, n as int);
        }
        n = n + 1;
    }
    let r = if n == 1 {
        base
    } else {
        let digits = dec_string(n as u64);
        let head = cat(base.as_str(), "(");
        cat3(head.as_str(), digits.as_str(), ")")
    };
    assert(r@ == slot_title(base@, n as int));
    assert({
        &&& 1 <= n as int
        &&& !slot_used(sessions@, trim(base_title@), n as int)
        &&& (forall|m: int| 1 <= m < n as int ==> slot_used(sessions@, trim(base_title@), m))
        &&& r@ == slot_title(trim(base_title@), n as int)
    });
    r
}

} // verus!
