//! Number formatting: decimal, fixed-width lower-case hexadecimal and the
//! hyphenated form of 128-bit identifiers.

use vstd::prelude::*;

verus! {

/// `String::push`.
#[verifier::external_body]
pub fn push_char(s: &mut String, c: char)
    ensures
        final(s)@ == old(s)@.push(c),
{
    s.push(c);
}

/// The ASCII digit or lower-case letter for a value below 16.
pub open spec fn hex_char(d: int) -> char {
    if d < 10 {
        (48 + d) as char
    } else {
        (87 + d) as char
    }
}

pub fn hex_char_exec(d: u8) -> (c: char)
    requires
        d < 16,
    ensures
        c == hex_char(d as int),
{
    if d < 10 {
        (48u8 + d) as char
    } else {
        (87u8 + d) as char
    }
}

/// The last `width` hexadecimal digits of `n`, most significant first.
pub open spec fn hex_digits(n: nat, width: nat) -> Seq<char>
    decreases width,
{
    if width == 0 {
        Seq::empty()
    } else {
        hex_digits(n / 16, (width - 1) as nat).push(hex_char((n % 16) as int))
    }
}

/// Decimal digits of `n` without leading zeros (`"0"` for zero).
pub open spec fn dec_digits(n: nat) -> Seq<char>
    decreases n,
{
    if n < 10 {
        seq![(48 + n) as char]
    } else {
        dec_digits(n / 10).push((48 + n % 10) as char)
    }
}

/// The hexadecimal digits of `n`, `width` of them, zero padded: `{:0width$x}`
/// for values that fit.
pub fn hex_fixed(n: u128, width: usize) -> (r: String)
    ensures
        r@ == hex_digits(n as nat, width as nat),
{
    let mut digits: Vec<char> = Vec::new();
    let mut k: usize = 0;
    let mut m: u128 = n;
    assert(pow16(0) == 1);
    assert((n as nat) / 1 == n as nat);
    while k < width
        invariant
            k <= width,
            digits.len() == k,
            m as nat == (n as nat) / pow16(k as nat),
            forall|j: int| 0 <= j < k ==> #[trigger] digits@[j] == hex_char(((n as nat) / pow16(j as nat) % 16) as int),
        decreases width - k,
    {
        let d = (m % 16) as u8;
        digits.push(hex_char_exec(d));
        proof { lemma_pow16_div(n as nat, k as nat); }
        m = m / 16;
        k = k + 1;
    }
    let mut r = String::new();
    let mut i: usize = width;
    while i > 0
        invariant
            i <= width,
            digits.len() == width,
            forall|j: int| 0 <= j < width ==> #[trigger] digits@[j] == hex_char(((n as nat) / pow16(j as nat) % 16) as int),
            r@ == hex_digits((n as nat) / pow16(i as nat), (width - i) as nat),
        decreases i,
    {
        let ghost before = r@;
        push_char(&mut r, digits[i - 1]);
        proof {
            lemma_pow16_div(n as nat, (i - 1) as nat);
            let q = (n as nat) / pow16((i - 1) as nat);
            assert(q / 16 == (n as nat) / pow16(i as nat));
            assert(hex_digits(q, (width - i + 1) as nat) == hex_digits(q / 16, (width - i) as nat).push(hex_char((q % 16) as int)));
        }
        i = i - 1;
    }
    assert(pow16(0) == 1);
    assert((n as nat) / 1 == n as nat);
    r
}

pub open spec fn pow16(k: nat) -> nat
    decreases k,
{
    if k == 0 {
        1
    } else {
        16 * pow16((k - 1) as nat)
    }
}

proof fn lemma_pow16_div(n: nat, k: nat)
    ensures
        pow16(k) > 0,
        n / pow16(k + 1) == (n / pow16(k)) / 16,
    decreases k,
{
    if k > 0 {
        lemma_pow16_div(n, (k - 1) as nat);
    }
    let p = pow16(k);
    assert(pow16(k + 1) == 16 * p);
    vstd::arithmetic::div_mod::lemma_div_denominator(n as int, p as int, 16);
}

/// Decimal text of `n` (`n.to_string()`).
pub fn dec_string(n: u64) -> (r: String)
    ensures
        r@ == dec_digits(n as nat),
    decreases n,
{
    if n < 10 {
        let mut r = String::new();
        push_char(&mut r, ((48 + n) as u8) as char);
        assert(r@ =~= seq![(48 + n) as char]);
        r
    } else {
        let mut r = dec_string(n / 10);
        push_char(&mut r, ((48 + n % 10) as u8) as char);
        r
    }
}

/// The lower-case hyphenated text of a 128-bit identifier (8-4-4-4-12 hex
/// digits), which is how `uuid::Uuid` displays.
pub open spec fn uuid_text(id: u128) -> Seq<char> {
    let h = hex_digits(id as nat, 32);
    h.subrange(0, 8) + seq!['-'] + h.subrange(8, 12) + seq!['-'] + h.subrange(12, 16) + seq!['-']
        + h.subrange(16, 20) + seq!['-'] + h.subrange(20, 32)
}

pub fn uuid_string(id: u128) -> (r: String)
    ensures
        r@ == uuid_text(id),
{
    let h = hex_fixed(id, 32);
    proof { lemma_hex_len(id as nat, 32); }
    let mut r = String::from_str(h.substring_char(0, 8));
    push_char(&mut r, '-');
    r.append(h.substring_char(8, 12));
    push_char(&mut r, '-');
    r.append(h.substring_char(12, 16));
    push_char(&mut r, '-');
    r.append(h.substring_char(16, 20));
    push_char(&mut r, '-');
    r.append(h.substring_char(20, 32));
    assert(r@ =~= uuid_text(id));
    r
}

pub proof fn lemma_hex_len(n: nat, width: nat)
    ensures
        hex_digits(n, width).len() == width,
    decreases width,
{
    if width > 0 {
        lemma_hex_len(n / 16, (width - 1) as nat);
    }
}

} // verus!
