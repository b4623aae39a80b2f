//! Character-level helpers shared by the path, command and parser modules.
//!
//! Strings are modelled by their `Seq<char>` view. Trimming is described by
//! counting how many leading or trailing characters satisfy a predicate.

use vstd::prelude::*;

verus! {

/// The Unicode `White_Space` property, which is what `char::is_whitespace` tests.
pub open spec fn is_ws(c: char) -> bool {
    ||| ('\u{9}' <= c && c <= '\u{d}')
    ||| c == ' '
    ||| c == '\u{85}'
    ||| c == '\u{a0}'
    ||| c == '\u{1680}'
    ||| ('\u{2000}' <= c && c <= '\u{200a}')
    ||| c == '\u{2028}'
    ||| c == '\u{2029}'
    ||| c == '\u{202f}'
    ||| c == '\u{205f}'
    ||| c == '\u{3000}'
}

pub open spec fn ws_pred() -> spec_fn(char) -> bool {
    |c: char| is_ws(c)
}

pub open spec fn eq_pred(x: char) -> spec_fn(char) -> bool {
    |c: char| c == x
}

/// Number of leading characters of `s` that satisfy `p`.
pub open spec fn lead(s: Seq<char>, p: spec_fn(char) -> bool) -> nat
    decreases s.len(),
{
    if s.len() > 0 && p(s[0]) {
        1 + lead(s.drop_first(), p)
    } else {
        0
    }
}

/// Number of trailing characters of `s` that satisfy `p`.
pub open spec fn trail(s: Seq<char>, p: spec_fn(char) -> bool) -> nat
    decreases s.len(),
{
    if s.len() > 0 && p(s.last()) {
        1 + trail(s.drop_last(), p)
    } else {
        0
    }
}

/// `s` without its leading characters that satisfy `p` (`str::trim_start_matches`).
pub open spec fn trim_start_by(s: Seq<char>, p: spec_fn(char) -> bool) -> Seq<char> {
    s.skip(lead(s, p) as int)
}

/// `s` without its trailing characters that satisfy `p` (`str::trim_end_matches`).
pub open spec fn trim_end_by(s: Seq<char>, p: spec_fn(char) -> bool) -> Seq<char> {
    s.take(s.len() - trail(s, p))
}

/// `s` without leading and trailing characters that satisfy `p` (`str::trim_matches`).
pub open spec fn trim_by(s: Seq<char>, p: spec_fn(char) -> bool) -> Seq<char> {
    trim_end_by(trim_start_by(s, p), p)
}

/// `str::trim`.
pub open spec fn trim(s: Seq<char>) -> Seq<char> {
    trim_by(s, ws_pred())
}

pub open spec fn is_prefix(p: Seq<char>, s: Seq<char>) -> bool {
    p.len() <= s.len() && s.take(p.len() as int) == p
}

pub open spec fn is_suffix(p: Seq<char>, s: Seq<char>) -> bool {
    p.len() <= s.len() && s.skip(s.len() - p.len()) == p
}

/// Index of the last occurrence of `c` in `s`, or -1.
pub open spec fn last_index_of(s: Seq<char>, c: char) -> int
    decreases s.len(),
{
    if s.len() == 0 {
        -1
    } else if s.last() == c {
        s.len() - 1
    } else {
        last_index_of(s.drop_last(), c)
    }
}

/// Index of the first occurrence of `c` in `s`, or -1.
pub open spec fn first_index_of(s: Seq<char>, c: char) -> int {
    if s.contains(c) {
        choose|i: int| 0 <= i < s.len() && s[i] == c && forall|j: int| 0 <= j < i ==> s[j] != c
    } else {
        -1
    }
}

pub proof fn lemma_lead_bound(s: Seq<char>, p: spec_fn(char) -> bool)
    ensures
        lead(s, p) <= s.len(),
        forall|j: int| 0 <= j < lead(s, p) ==> p(#[trigger] s[j]),
        lead(s, p) < s.len() ==> !p(s[lead(s, p) as int]),
    decreases s.len(),
{
    if s.len() > 0 && p(s[0]) {
        lemma_lead_bound(s.drop_first(), p);
        assert forall|j: int| 0 <= j < lead(s, p) implies p(#[trigger] s[j]) by {
            if j > 0 {
                assert(s[j] == s.drop_first()[j - 1]);
            }
        }
    }
}

/// `lead` is characterised by its prefix of satisfying characters.
pub proof fn lemma_lead_is(s: Seq<char>, p: spec_fn(char) -> bool, k: int)
    requires
        0 <= k <= s.len(),
        forall|j: int| 0 <= j < k ==> p(#[trigger] s[j]),
        k == s.len() || !p(s[k]),
    ensures
        lead(s, p) == k,
    decreases k,
{
    if k > 0 {
        let t = s.drop_first();
        assert forall|j: int| 0 <= j < k - 1 implies p(#[trigger] t[j]) by {
            assert(t[j] == s[j + 1]);
        }
        if k - 1 < t.len() {
            assert(t[k - 1] == s[k]);
        }
        lemma_lead_is(t, p, k - 1);
    }
}

pub proof fn lemma_trail_bound(s: Seq<char>, p: spec_fn(char) -> bool)
    ensures
        trail(s, p) <= s.len(),
        forall|j: int| s.len() - trail(s, p) <= j < s.len() ==> p(#[trigger] s[j]),
        trail(s, p) < s.len() ==> !p(s[s.len() - trail(s, p) - 1]),
    decreases s.len(),
{
    if s.len() > 0 && p(s.last()) {
        lemma_trail_bound(s.drop_last(), p);
        assert forall|j: int| s.len() - trail(s, p) <= j < s.len() implies p(#[trigger] s[j]) by {
            if j < s.len() - 1 {
                assert(s[j] == s.drop_last()[j]);
            }
        }
        if trail(s, p) < s.len() {
            assert(s[s.len() - trail(s, p) - 1] == s.drop_last()[s.drop_last().len() - trail(
                s.drop_last(),
                p,
            ) - 1]);
        }
    }
}

/// `trail` is characterised by its suffix of satisfying characters.
pub proof fn lemma_trail_is(s: Seq<char>, p: spec_fn(char) -> bool, k: int)
    requires
        0 <= k <= s.len(),
        forall|j: int| s.len() - k <= j < s.len() ==> p(#[trigger] s[j]),
        k == s.len() || !p(s[s.len() - k - 1]),
    ensures
        trail(s, p) == k,
    decreases k,
{
    if k > 0 {
        let t = s.drop_last();
        assert forall|j: int| t.len() - (k - 1) <= j < t.len() implies p(#[trigger] t[j]) by {
            assert(t[j] == s[j]);
        }
        if k - 1 < t.len() {
            assert(t[t.len() - (k - 1) - 1] == s[s.len() - k - 1]);
        }
        assert(p(s.last()));
        lemma_trail_is(t, p, k - 1);
    }
}

/// Text that neither starts nor ends with white space is its own trim.
pub proof fn lemma_trim_unchanged(s: Seq<char>)
    requires
        s.len() > 0 ==> !is_ws(s[0]) && !is_ws(s.last()),
    ensures
        trim(s) == s,
{
    lemma_lead_is(s, ws_pred(), 0);
    assert(s.skip(0) =~= s);
    lemma_trail_is(s, ws_pred(), 0);
    assert(s.take(s.len() as int) =~= s);
}

pub proof fn lemma_last_index_of(s: Seq<char>, c: char)
    ensures
        -1 <= last_index_of(s, c) < s.len(),
        last_index_of(s, c) >= 0 ==> s[last_index_of(s, c)] == c,
        forall|j: int| last_index_of(s, c) < j < s.len() ==> #[trigger] s[j] != c,
    decreases s.len(),
{
    if s.len() > 0 && s.last() != c {
        lemma_last_index_of(s.drop_last(), c);
        assert forall|j: int| last_index_of(s, c) < j < s.len() implies #[trigger] s[j] != c by {
            if j < s.len() - 1 {
                assert(s[j] == s.drop_last()[j]);
            }
        }
    }
}

pub proof fn lemma_last_index_is(s: Seq<char>, c: char, k: int)
    requires
        -1 <= k < s.len(),
        k >= 0 ==> s[k] == c,
        forall|j: int| k < j < s.len() ==> #[trigger] s[j] != c,
    ensures
        last_index_of(s, c) == k,
    decreases s.len(),
{
    if s.len() > 0 && s.last() != c {
        let t = s.drop_last();
        assert forall|j: int| k < j < t.len() implies #[trigger] t[j] != c by {
            assert(t[j] == s[j]);
        }
        lemma_last_index_is(t, c, k);
    }
}

pub proof fn lemma_first_index_is(s: Seq<char>, c: char, k: int)
    requires
        -1 <= k < s.len(),
        k >= 0 ==> s[k] == c,
        forall|j: int| 0 <= j < (if k >= 0 { k } else { s.len() as int }) ==> #[trigger] s[j] != c,
    ensures
        first_index_of(s, c) == k,
{
    if k >= 0 {
        assert(s.contains(c));
        let i = first_index_of(s, c);
        assert(0 <= i < s.len() && s[i] == c && forall|j: int| 0 <= j < i ==> s[j] != c);
        if i < k {
            assert(s[i] != c);
        }
        if k < i {
            assert(s[k] != c);
        }
    } else {
        assert(!s.contains(c));
    }
}

/// The unicode scalars of `s`, one element each.
pub fn chars_of(s: &str) -> (v: Vec<char>)
    ensures
        v@ == s@,
{
    let n = s.unicode_len();
    let mut v: Vec<char> = Vec::new();
    let mut i: usize = 0;
    while i < n
        invariant
            n == s@.len(),
            i <= n,
            v@ == s@.take(i as int),
        decreases n - i,
    {
        let c = s.get_char(i);
        v.push(c);
        i = i + 1;
        assert(v@ =~= s@.take(i as int));
    }
    assert(s@.take(n as int) =~= s@);
    v
}

pub fn char_is_ws(c: char) -> (r: bool)
    ensures
        r == is_ws(c),
{
    ('\u{9}' <= c && c <= '\u{d}') || c == ' ' || c == '\u{85}' || c == '\u{a0}' || c == '\u{1680}'
        || ('\u{2000}' <= c && c <= '\u{200a}') || c == '\u{2028}' || c == '\u{2029}'
        || c == '\u{202f}' || c == '\u{205f}' || c == '\u{3000}'
}

/// Counts leading whitespace (`ws == true`) or leading copies of `ch`.
pub fn lead_count(v: &Vec<char>, ws: bool, ch: char) -> (k: usize)
    ensures
        k == lead(v@, if ws { ws_pred() } else { eq_pred(ch) }),
{
    let ghost p = if ws { ws_pred() } else { eq_pred(ch) };
    let mut i: usize = 0;
    while i < v.len()
        invariant
            i <= v.len(),
            p == (if ws { ws_pred() } else { eq_pred(ch) }),
            forall|j: int| 0 <= j < i ==> p(#[trigger] v@[j]),
        decreases v.len() - i,
    {
        let c = v[i];
        let hit = if ws { char_is_ws(c) } else { c == ch };
        if !hit {
            proof { lemma_lead_is(v@, p, i as int); }
            return i;
        }
        i = i + 1;
    }
    proof { lemma_lead_is(v@, p, i as int); }
    i
}

/// Counts trailing whitespace (`ws == true`) or trailing copies of `ch` in `v[..end]`.
pub fn trail_count(v: &Vec<char>, end: usize, ws: bool, ch: char) -> (k: usize)
    requires
        end <= v.len(),
    ensures
        k == trail(v@.take(end as int), if ws { ws_pred() } else { eq_pred(ch) }),
{
    let ghost p = if ws { ws_pred() } else { eq_pred(ch) };
    let ghost s = v@.take(end as int);
    let mut k: usize = 0;
    while k < end
        invariant
            k <= end,
            end <= v.len(),
            s == v@.take(end as int),
            p == (if ws { ws_pred() } else { eq_pred(ch) }),
            forall|j: int| end - k <= j < end ==> p(#[trigger] s[j]),
        decreases end - k,
    {
        let c = v[end - k - 1];
        let hit = if ws { char_is_ws(c) } else { c == ch };
        if !hit {
            assert(s[end - k - 1] == c);
            proof { lemma_trail_is(s, p, k as int); }
            return k;
        }
        assert(s[end - k - 1] == c);
        k = k + 1;
    }
    proof { lemma_trail_is(s, p, k as int); }
    k
}

/// An owned copy of the characters `from..to` of `s`.
pub fn substring(s: &str, from: usize, to: usize) -> (r: String)
    requires
        from <= to <= s@.len(),
    ensures
        r@ == s@.subrange(from as int, to as int),
{
    String::from_str(s.substring_char(from, to))
}

/// `str::trim`.
pub fn trim_str(s: &str) -> (r: String)
    ensures
        r@ == trim(s@),
{
    let v = chars_of(s);
    let a = lead_count(&v, true, ' ');
    proof { lemma_lead_bound(v@, ws_pred()); }
    let ghost t = s@.skip(a as int);
    let k = trail_count_from(&v, a, true, ' ');
    proof { lemma_trail_bound(t, ws_pred()); }
    let r = substring(s, a, v.len() - k);
    assert(r@ =~= t.take(t.len() - k));
    r
}

/// Trailing count over `v[start..]`.
pub fn trail_count_from(v: &Vec<char>, start: usize, ws: bool, ch: char) -> (k: usize)
    requires
        start <= v.len(),
    ensures
        k == trail(v@.skip(start as int), if ws { ws_pred() } else { eq_pred(ch) }),
        k <= v.len() - start,
{
    let ghost p = if ws { ws_pred() } else { eq_pred(ch) };
    let ghost s = v@.skip(start as int);
    let n = v.len();
    let mut k: usize = 0;
    while k < n - start
        invariant
            start <= n,
            n == v.len(),
            k <= n - start,
            s == v@.skip(start as int),
            p == (if ws { ws_pred() } else { eq_pred(ch) }),
            forall|j: int| s.len() - k <= j < s.len() ==> p(#[trigger] s[j]),
        decreases n - start - k,
    {
        let c = v[n - k - 1];
        assert(s[s.len() - k - 1] == c);
        let hit = if ws { char_is_ws(c) } else { c == ch };
        if !hit {
            proof { lemma_trail_is(s, p, k as int); }
            return k;
        }
        k = k + 1;
    }
    proof { lemma_trail_is(s, p, k as int); }
    k
}


/// `str::trim_start_matches(c)`.
pub fn trim_start_char(s: &str, c: char) -> (r: String)
    ensures
        r@ == trim_start_by(s@, eq_pred(c)),
{
    let v = chars_of(s);
    let a = lead_count(&v, false, c);
    proof { lemma_lead_bound(v@, eq_pred(c)); }
    let r = substring(s, a, v.len());
    assert(r@ =~= s@.skip(a as int));
    r
}

/// `str::trim_end_matches(c)`.
pub fn trim_end_char(s: &str, c: char) -> (r: String)
    ensures
        r@ == trim_end_by(s@, eq_pred(c)),
{
    let v = chars_of(s);
    let k = trail_count_from(&v, 0, false, c);
    assert(v@.skip(0) =~= v@);
    let r = substring(s, 0, v.len() - k);
    assert(r@ =~= s@.take(s@.len() - k));
    r
}

/// `str::trim_matches(c)`.
pub fn trim_matches_char(s: &str, c: char) -> (r: String)
    ensures
        r@ == trim_by(s@, eq_pred(c)),
{
    let v = chars_of(s);
    let a = lead_count(&v, false, c);
    proof { lemma_lead_bound(v@, eq_pred(c)); }
    let ghost t = s@.skip(a as int);
    let k = trail_count_from(&v, a, false, c);
    let r = substring(s, a, v.len() - k);
    assert(r@ =~= t.take(t.len() - k));
    r
}

/// Position of the last `c` in `v`.
pub fn rfind_char(v: &Vec<char>, c: char) -> (r: Option<usize>)
    ensures
        match r {
            Some(i) => i == last_index_of(v@, c) && i < v@.len(),
            None => last_index_of(v@, c) == -1,
        },
{
    let mut k: usize = v.len();
    while k > 0
        invariant
            k <= v.len(),
            forall|j: int| k <= j < v@.len() ==> #[trigger] v@[j] != c,
        decreases k,
    {
        if v[k - 1] == c {
            proof { lemma_last_index_is(v@, c, k - 1); }
            return Some(k - 1);
        }
        k = k - 1;
    }
    proof { lemma_last_index_is(v@, c, -1); }
    None
}

/// Position of the first `c` in `v[start..]`, relative to `start`.
pub fn find_char_from(v: &Vec<char>, start: usize, c: char) -> (r: Option<usize>)
    requires
        start <= v.len(),
    ensures
        match r {
            Some(i) => i == first_index_of(v@.skip(start as int), c) && start + i < v@.len(),
            None => first_index_of(v@.skip(start as int), c) == -1,
        },
{
    let ghost s = v@.skip(start as int);
    let mut i: usize = start;
    while i < v.len()
        invariant
            start <= i <= v.len(),
            s == v@.skip(start as int),
            forall|j: int| 0 <= j < i - start ==> #[trigger] s[j] != c,
        decreases v.len() - i,
    {
        if v[i] == c {
            assert(s[i - start] == c);
            proof { lemma_first_index_is(s, c, (i - start) as int); }
            return Some(i - start);
        }
        assert(s[i - start] == v@[i as int]);
        i = i + 1;
    }
    proof { lemma_first_index_is(s, c, -1); }
    None
}

/// Textual equality of two strings.
pub fn same_text(a: &str, b: &str) -> (r: bool)
    ensures
        r == (a@ == b@),
{
    let x = a.to_owned();
    let y = b.to_owned();
    x == y
}

/// `str::starts_with` for a string prefix.
pub fn starts_with(s: &str, prefix: &str) -> (r: bool)
    ensures
        r == is_prefix(prefix@, s@),
{
    let n = s.unicode_len();
    let m = prefix.unicode_len();
    if m > n {
        return false;
    }
    let head = s.substring_char(0, m);
    let r = same_text(head, prefix);
    r
}

/// `str::ends_with` for a string suffix.
pub fn ends_with(s: &str, suffix: &str) -> (r: bool)
    ensures
        r == is_suffix(suffix@, s@),
{
    let n = s.unicode_len();
    let m = suffix.unicode_len();
    if m > n {
        return false;
    }
    let tail = s.substring_char(n - m, n);
    assert(tail@ =~= s@.skip(n - m));
    same_text(tail, suffix)
}

/// `str::strip_prefix` for a string prefix.
pub fn strip_prefix(s: &str, prefix: &str) -> (r: Option<String>)
    ensures
        match r {
            Some(t) => is_prefix(prefix@, s@) && t@ == s@.skip(prefix@.len() as int),
            None => !is_prefix(prefix@, s@),
        },
{
    if starts_with(s, prefix) {
        let n = s.unicode_len();
        let m = prefix.unicode_len();
        Some(substring(s, m, n))
    } else {
        None
    }
}

/// The ASCII lower-case form of `c`; other characters are unchanged.
pub open spec fn lower_ascii(c: char) -> char {
    if 'A' <= c && c <= 'Z' { ((c as u32) + 32) as char } else { c }
}

/// `str::to_ascii_lowercase`.
pub fn ascii_lowercase(s: &str) -> (r: String)
    ensures
        r@ == s@.map_values(|c: char| lower_ascii(c)),
{
    let v = chars_of(s);
    let mut r = String::new();
    let mut i: usize = 0;
    while i < v.len()
        invariant
            i <= v@.len(),
            v@ == s@,
            r@ == s@.take(i as int).map_values(|c: char| lower_ascii(c)),
        decreases v.len() - i,
    {
        let c = v[i];
        let d = if 'A' <= c && c <= 'Z' { ((c as u8) + 32) as char } else { c };
        assert(d == lower_ascii(c));
        crate::format::push_char(&mut r, d);
        assert(r@ =~= s@.take(i + 1).map_values(|c: char| lower_ascii(c)));
        i = i + 1;
    }
    assert(s@.take(i as int) =~= s@);
    r
}

/// `s` followed by `t`.
pub fn cat(s: &str, t: &str) -> (r: String)
    ensures
        r@ == s@ + t@,
{
    let mut r = String::from_str(s);
    r.append(t);
    r
}

/// `a`, `b` and `c` one after the other.
pub fn cat3(a: &str, b: &str, c: &str) -> (r: String)
    ensures
        r@ == a@ + b@ + c@,
{
    let mut r = String::from_str(a);
    r.append(b);
    r.append(c);
    r
}

} // verus!
