//! Decimal numerals, as `str::parse` reads them for the integer types.

use vstd::prelude::*;
use crate::text::chars_of;

verus! {

pub open spec fn is_digit(c: char) -> bool {
    '0' <= c && c <= '9'
}

pub open spec fn digit_value(c: char) -> int {
    c as int - '0' as int
}

pub open spec fn all_digits(s: Seq<char>) -> bool {
    forall|i: int| 0 <= i < s.len() ==> #[trigger] is_digit(s[i])
}

/// The number that the digits of `s` spell, most significant first.
pub open spec fn digits_value(s: Seq<char>) -> int
    decreases s.len(),
{
    if s.len() == 0 {
        0
    } else {
        digits_value(s.drop_last()) * 10 + digit_value(s.last())
    }
}

/// A leading sign, if any, and the text after it.
pub open spec fn split_sign(s: Seq<char>) -> (bool, Seq<char>) {
    if s.len() > 0 && s[0] == '-' {
        (true, s.drop_first())
    } else if s.len() > 0 && s[0] == '+' {
        (false, s.drop_first())
    } else {
        (false, s)
    }
}

/// The value of a signed decimal numeral: an optional `+` or `-`, then at least one digit.
pub open spec fn signed_numeral_value(s: Seq<char>) -> Option<int> {
    let (negative, body) = split_sign(s);
    if body.len() == 0 || !all_digits(body) {
        None
    } else if negative {
        Some(-digits_value(body))
    } else {
        Some(digits_value(body))
    }
}

/// The value of an unsigned decimal numeral: an optional `+`, then at least one digit.
pub open spec fn unsigned_numeral_value(s: Seq<char>) -> Option<int> {
    let body = if s.len() > 0 && s[0] == '+' { s.drop_first() } else { s };
    if body.len() == 0 || !all_digits(body) {
        None
    } else {
        Some(digits_value(body))
    }
}

/// What `str::parse::<i32>` accepts, and the value it gives.
pub open spec fn parse_i32_spec(s: Seq<char>) -> Option<i32> {
    match signed_numeral_value(s) {
        Some(v) => if i32::MIN <= v <= i32::MAX { Some(v as i32) } else { None },
        None => None,
    }
}

/// What `str::parse::<u16>` accepts, and the value it gives.
pub open spec fn parse_u16_spec(s: Seq<char>) -> Option<u16> {
    match unsigned_numeral_value(s) {
        Some(v) => if v <= u16::MAX { Some(v as u16) } else { None },
        None => None,
    }
}

/// The digits of `v[start..]`, saturated: the exact value when it is at most
/// `cap`, and some number above `cap` otherwise. `None` when a non-digit occurs.
fn saturated_digits(v: &Vec<char>, start: usize, cap: u64) -> (r: Option<u64>)
    requires
        start <= v.len(),
        cap <= 0xffff_ffff,
    ensures
        match r {
            Some(n) => all_digits(v@.skip(start as int)) && (if digits_value(v@.skip(start as int)) <= cap {
                n == digits_value(v@.skip(start as int))
            } else {
                n > cap
            }),
            None => !all_digits(v@.skip(start as int)),
        },
{
    let ghost s = v@.skip(start as int);
    let mut acc: u64 = 0;
    let mut i: usize = start;
    while i < v.len()
        invariant
            start <= i <= v.len(),
            cap <= 0xffff_ffff,
            s == v@.skip(start as int),
            all_digits(s.take(i - start)),
            digits_value(s.take(i - start)) >= 0,
            if digits_value(s.take(i - start)) <= cap {
                acc == digits_value(s.take(i - start))
            } else {
                acc > cap
            },
        decreases v.len() - i,
    {
        let c = v[i];
        let ghost p = s.take(i - start);
        let ghost q = s.take(i - start + 1);
        assert(q.drop_last() =~= p);
        assert(q.last() == c);
        if !('0' <= c && c <= '9') {
            assert(!is_digit(s[i - start]));
            return None;
        }
        let d: u64 = (c as u32 - '0' as u32) as u64;
        assert(d == digit_value(c));
        if acc <= cap {
            acc = acc * 10 + d;
        }
        i = i + 1;
        assert(all_digits(s.take(i - start))) by {
            assert forall|k: int| 0 <= k < q.len() implies #[trigger] is_digit(q[k]) by {
                if k < p.len() {
                    assert(q[k] == p[k]);
                }
            }
        }
    }
    assert(s.take(i - start) =~= s);
    Some(acc)
}

/// `str::parse::<i32>`, with `None` for every error.
pub fn parse_i32(s: &str) -> (r: Option<i32>)
    ensures
        r == parse_i32_spec(s@),
{
    let v = chars_of(s);
    let mut start: usize = 0;
    let mut negative = false;
    if v.len() > 0 && v[0] == '-' {
        start = 1;
        negative = true;
    } else if v.len() > 0 && v[0] == '+' {
        start = 1;
    }
    assert(split_sign(s@).1 =~= v@.skip(start as int));
    if start == v.len() {
        return None;
    }
    let cap: u64 = 0x8000_0000;
    match saturated_digits(&v, start, cap) {
        None => None,
        Some(n) => {
            if n > cap {
                None
            } else if negative {
                let x: i64 = 0i64 - (n as i64);
                Some(x as i32)
            } else if n == cap {
                None
            } else {
                Some(n as i32)
            }
        },
    }
}

/// `str::parse::<u16>`, with `None` for every error.
pub fn parse_u16(s: &str) -> (r: Option<u16>)
    ensures
        r == parse_u16_spec(s@),
{
    let v = chars_of(s);
    let mut start: usize = 0;
    if v.len() > 0 && v[0] == '+' {
        start = 1;
    }
    assert((if s@.len() > 0 && s@[0] == '+' { s@.drop_first() } else { s@ }) =~= v@.skip(start as int));
    if start == v.len() {
        return None;
    }
    let cap: u64 = 0x1_0000;
    match saturated_digits(&v, start, cap) {
        None => None,
        Some(n) => {
            if n > 0xffff {
                None
            } else {
                Some(n as u16)
            }
        },
    }
}

/// What `str::parse::<usize>` accepts, and the value it gives.
pub open spec fn parse_usize_spec(s: Seq<char>) -> Option<usize> {
    match unsigned_numeral_value(s) {
        Some(v) => if v <= usize::MAX { Some(v as usize) } else { None },
        None => None,
    }
}

proof fn lemma_digits_value_nonneg(s: Seq<char>)
    requires
        all_digits(s),
    ensures
        digits_value(s) >= 0,
    decreases s.len(),
{
    if s.len() > 0 {
        assert(all_digits(s.drop_last())) by {
            assert forall|k: int| 0 <= k < s.drop_last().len() implies #[trigger] is_digit(s.drop_last()[k]) by {
                assert(s.drop_last()[k] == s[k]);
            }
        }
        lemma_digits_value_nonneg(s.drop_last());
        assert(is_digit(s[s.len() - 1]));
    }
}

/// `str::parse::<usize>`, with `None` for every error.
pub fn parse_usize(s: &str) -> (r: Option<usize>)
    ensures
        r == parse_usize_spec(s@),
{
    let v = chars_of(s);
    let mut start: usize = 0;
    if v.len() > 0 && v[0] == '+' {
        start = 1;
    }
    let ghost body = v@.skip(start as int);
    assert((if s@.len() > 0 && s@[0] == '+' { s@.drop_first() } else { s@ }) =~= body);
    if start == v.len() {
        return None;
    }
    let mut acc: usize = 0;
    let mut overflowed = false;
    let mut i: usize = start;
    assert(body.take(0) =~= Seq::<char>::empty());
    while i < v.len()
        invariant
            start <= i <= v.len(),
            body == v@.skip(start as int),
            body == (if s@.len() > 0 && s@[0] == '+' { s@.drop_first() } else { s@ }),
            all_digits(body.take(i - start)),
            overflowed ==> digits_value(body.take(i - start)) > usize::MAX,
            !overflowed ==> acc == digits_value(body.take(i - start)),
        decreases v.len() - i,
    {
        let c = v[i];
        let ghost p = body.take(i - start);
        let ghost q = body.take(i - start + 1);
        assert(q.drop_last() =~= p);
        assert(q.last() == c);
        if !('0' <= c && c <= '9') {
            assert(!is_digit(body[i - start]));
            return None;
        }
        let d: usize = (c as u32 - '0' as u32) as usize;
        assert(d == digit_value(c));
        proof { lemma_digits_value_nonneg(p); }
        if !overflowed {
            match acc.checked_mul(10) {
                Some(m) => match m.checked_add(d) {
                    Some(n) => {
                        acc = n;
                    },
                    None => {
                        overflowed = true;
                    },
                },
                None => {
                    overflowed = true;
                },
            }
        }
        i = i + 1;
        assert(all_digits(body.take(i - start))) by {
            assert forall|k: int| 0 <= k < q.len() implies #[trigger] is_digit(q[k]) by {
                if k < p.len() {
                    assert(q[k] == p[k]);
                }
            }
        }
    }
    assert(body.take(i - start) =~= body);
    if overflowed {
        None
    } else {
        Some(acc)
    }
}

} // verus!
