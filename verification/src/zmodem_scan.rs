//! Spotting the start of a ZMODEM transfer in remote terminal output.
//!
//! Bytes that might begin a transfer header are held back ("tentative")
//! until it is clear whether they do; everything else reaches the terminal
//! at once. Leading `*` bytes are shown while they wait, so that ordinary
//! stars appear without delay; when a transfer does start, the stars already
//! shown are erased again. A candidate header counts only when the `zmodem2`
//! engine accepts it; a rejected one is replayed to the terminal.

use vstd::prelude::*;
use crate::bytes::{copy_range, extend_range, find_subsequence, has_suffix};
use crate::output_pump::{partial_marker_suffix, partial_marker_suffix_len};
use crate::zmodem_model::{
    automatic_rz_echo_start, autostart_marker, find_zmodem_prefix, rz_echo_marker, rz_echo_marker_bytes,
    strip_first_suffix, strip_lrzsz_download_autostart_invocation, zmodem_prefix_of, zrinit_prefix, zrinit_prefix_bytes,
    zrqinit_prefix, zrqinit_prefix_bytes, fresh_state, ZmodemTransferDirection, ZmodemTransferPhase, ZmodemTransferState,
};

verus! {

/// The length of the hexadecimal header that opens a transfer.
pub const ZMODEM_ZHEX_HEADER_CORE_LEN: usize = 18;

// ---------------------------------------------------------------------------
// The engine's verdict on a header
// ---------------------------------------------------------------------------

/// How many bytes of `header` a fresh `zmodem2` sender, once it has written
/// its greeting, takes; nothing when it refuses them.
pub uninterp spec fn zmodem2_sender_takes(header: Seq<u8>) -> Option<usize>;

/// How many bytes of `header` a fresh `zmodem2` receiver, once it has written
/// its greeting, takes; nothing when it refuses them.
pub uninterp spec fn zmodem2_receiver_takes(header: Seq<u8>) -> Option<usize>;

/// A fresh `zmodem2::Sender` (`Sender::new`, its greeting drained with
/// `poll` and `wire_written`) offered `header` with `submit_wire`. Its result
/// is named by `zmodem2_sender_takes`; nothing more is stated of it.
#[verifier::external_body]
fn fresh_sender_submit(header: &[u8]) -> (r: Option<usize>)
    ensures
        r == zmodem2_sender_takes(header@),
{
    let mut sender = zmodem2::Sender::new().ok()?;
    while let zmodem2::Action::WriteWire(bytes) = sender.poll() {
        let written = bytes.len();
        sender.wire_written(written);
    }
    sender.submit_wire(header).ok()
}

/// A fresh `zmodem2::Receiver` (`Receiver::new`, its greeting drained with
/// `poll` and `wire_written`) offered `header` with `submit_wire`. Its result
/// is named by `zmodem2_receiver_takes`; nothing more is stated of it.
#[verifier::external_body]
fn fresh_receiver_submit(header: &[u8]) -> (r: Option<usize>)
    ensures
        r == zmodem2_receiver_takes(header@),
{
    let mut receiver = zmodem2::Receiver::new().ok()?;
    while let zmodem2::Action::WriteWire(bytes) = receiver.poll() {
        let written = bytes.len();
        receiver.wire_written(written);
    }
    receiver.submit_wire(header).ok()
}

/// A header opens a transfer when it is complete and the engine of the side
/// this program plays takes all of it: the sender when the remote end
/// receives (an upload), the receiver when it sends (a download).
pub open spec fn header_accepted(header: Seq<u8>, direction: ZmodemTransferDirection) -> bool {
    &&& header.len() == ZMODEM_ZHEX_HEADER_CORE_LEN
    &&& match direction {
        ZmodemTransferDirection::Upload => zmodem2_sender_takes(header) == Some(ZMODEM_ZHEX_HEADER_CORE_LEN),
        ZmodemTransferDirection::Download => zmodem2_receiver_takes(header) == Some(ZMODEM_ZHEX_HEADER_CORE_LEN),
    }
}

pub fn validate_initial_header(header: &[u8], direction: ZmodemTransferDirection) -> (r: bool)
    ensures
        r == header_accepted(header@, direction),
{
    if header.len() != ZMODEM_ZHEX_HEADER_CORE_LEN {
        return false;
    }
    let taken = match direction {
        ZmodemTransferDirection::Upload => fresh_sender_submit(header),
        ZmodemTransferDirection::Download => fresh_receiver_submit(header),
    };
    match taken {
        Some(n) => n == ZMODEM_ZHEX_HEADER_CORE_LEN,
        None => false,
    }
}

// ---------------------------------------------------------------------------
// A possible echo of this program's own `rz` command at the end
// ---------------------------------------------------------------------------

pub open spec fn starts_with_seq(s: Seq<u8>, p: Seq<u8>) -> bool {
    p.len() <= s.len() && s.take(p.len() as int) == p
}

/// `suffix` may be (the start of) the echo `marker`, or the whole echo
/// followed by the start of the receiver's readiness header.
pub open spec fn echo_marker_fits(suffix: Seq<u8>, marker: Seq<u8>) -> bool {
    ||| starts_with_seq(marker, suffix)
    ||| (starts_with_seq(suffix, marker) && suffix.len() - marker.len() < zrinit_prefix().len()
        && starts_with_seq(zrinit_prefix(), suffix.skip(marker.len() as int)))
}

pub open spec fn echo_fits(suffix: Seq<u8>) -> bool {
    exists|i: int| 0 <= i < 6 && echo_marker_fits(suffix, #[trigger] rz_echo_marker(i))
}

/// The longest tail of `b`, no longer than `k`, that may still be the echo.
pub open spec fn echo_candidate_from(b: Seq<u8>, k: int) -> int
    decreases k,
{
    if k <= 0 {
        0
    } else if echo_fits(b.skip(b.len() - k)) {
        k
    } else {
        echo_candidate_from(b, k - 1)
    }
}

pub open spec fn echo_candidate_len(b: Seq<u8>) -> int {
    echo_candidate_from(b, b.len() as int)
}

proof fn lemma_echo_candidate_bound(b: Seq<u8>, k: int)
    ensures
        0 <= echo_candidate_from(b, k),
        k >= 0 ==> echo_candidate_from(b, k) <= k,
    decreases k,
{
    if k > 0 && !echo_fits(b.skip(b.len() - k)) {
        lemma_echo_candidate_bound(b, k - 1);
    }
}

fn starts_with_bytes(s: &[u8], p: &[u8]) -> (r: bool)
    ensures
        r == starts_with_seq(s@, p@),
{
    if p.len() > s.len() {
        return false;
    }
    let r = crate::bytes::matches_at(s, p, 0);
    assert(s@.subrange(0, p@.len() as int) =~= s@.take(p@.len() as int));
    r
}

fn echo_marker_fits_exec(suffix: &[u8], marker: &[u8], zrinit: &[u8]) -> (r: bool)
    requires
        zrinit@ == zrinit_prefix(),
    ensures
        r == echo_marker_fits(suffix@, marker@),
{
    if starts_with_bytes(marker, suffix) {
        return true;
    }
    if !starts_with_bytes(suffix, marker) {
        return false;
    }
    let after = vstd::slice::slice_subrange(suffix, marker.len(), suffix.len());
    assert(after@ =~= suffix@.skip(marker@.len() as int));
    after.len() < zrinit.len() && starts_with_bytes(zrinit, after)
}

/// How much of the end of `bytes` must wait because it may be the echo of
/// this program's `rz` command.
pub fn automatic_rz_echo_candidate_suffix_len(bytes: &[u8]) -> (r: usize)
    ensures
        r == echo_candidate_len(bytes@),
        r <= bytes@.len(),
{
    let zrinit = zrinit_prefix_bytes();
    let n = bytes.len();
    let mut k = n;
    proof { lemma_echo_candidate_bound(bytes@, n as int); }
    while k > 0
        invariant
            k <= n,
            n == bytes@.len(),
            zrinit@ == zrinit_prefix(),
            echo_candidate_len(bytes@) == echo_candidate_from(bytes@, k as int),
        decreases k,
    {
        let suffix = vstd::slice::slice_subrange(bytes, n - k, n);
        assert(suffix@ =~= bytes@.skip(n - k));
        let mut i: usize = 0;
        let mut fits = false;
        while i < 6
            invariant
                i <= 6,
                zrinit@ == zrinit_prefix(),
                fits == exists|j: int| 0 <= j < i && echo_marker_fits(suffix@, #[trigger] rz_echo_marker(j)),
            decreases 6 - i,
        {
            let marker = rz_echo_marker_bytes(i);
            if echo_marker_fits_exec(suffix, marker.as_slice(), zrinit.as_slice()) {
                fits = true;
            }
            i = i + 1;
        }
        if fits {
            return k;
        }
        k = k - 1;
    }
    0
}

// ---------------------------------------------------------------------------
// The scanner
// ---------------------------------------------------------------------------

/// `\x08 \x08`: moves back over one cell and blanks it.
pub open spec fn erase_cell() -> Seq<u8> {
    seq![0x08u8, 0x20, 0x08]
}

pub open spec fn erase_cells(n: nat) -> Seq<u8>
    decreases n,
{
    if n == 0 { Seq::empty() } else { erase_cells((n - 1) as nat) + erase_cell() }
}

/// The number of `*` bytes that `t` starts with.
pub open spec fn leading_stars(t: Seq<u8>) -> nat
    decreases t.len(),
{
    if t.len() > 0 && t[0] == 0x2a { 1 + leading_stars(t.drop_first()) } else { 0 }
}

/// The scanner's state: the held-back bytes, how many of their first bytes
/// the terminal shows already, and whether the echo of this program's own
/// `rz` command is expected.
pub struct ScanState {
    pub held: Seq<u8>,
    pub visible: nat,
    pub echo_expected: bool,
}

/// Letting the first `len` held-back bytes go: those not shown yet reach the terminal.
pub open spec fn release(s: ScanState, len: int, out: Seq<u8>) -> (ScanState, Seq<u8>) {
    let l = if len < s.held.len() { len } else { s.held.len() as int };
    let already = if s.visible < l { s.visible as int } else { l };
    (
        ScanState { held: s.held.skip(l), visible: if s.visible > l { (s.visible - l) as nat } else { 0 }, ..s },
        out + s.held.subrange(already, l),
    )
}

/// Showing the held-back stars at the front that are not shown yet.
pub open spec fn present_stars(s: ScanState, out: Seq<u8>) -> (ScanState, Seq<u8>) {
    let stars = leading_stars(s.held);
    if stars <= s.visible {
        (s, out)
    } else {
        (ScanState { visible: stars, ..s }, out + s.held.subrange(s.visible as int, stars as int))
    }
}

pub open spec fn max_int(a: int, b: int) -> int {
    if a >= b { a } else { b }
}

/// What a held-back run of bytes turns into: the state afterwards, what the
/// terminal gets, and the direction and protocol bytes of a transfer that
/// starts, if one does.
pub open spec fn scan_held(s: ScanState, out: Seq<u8>) -> (ScanState, Seq<u8>, Option<(ZmodemTransferDirection, Seq<u8>)>)
    decreases s.held.len(),
{
    let t = s.held;
    match zmodem_prefix_of(t) {
        None => {
            let keep = max_int(
                max_int(partial_marker_suffix(t, zrqinit_prefix()), partial_marker_suffix(t, zrinit_prefix())),
                if s.echo_expected { echo_candidate_len(t) } else { 0 },
            );
            let emit = if t.len() > keep { t.len() - keep } else { 0 };
            let (s1, o1) = release(s, emit, out);
            let (s2, o2) = present_stars(s1, o1);
            (s2, o2, None)
        },
        Some((p, dir)) => if t.len() < p + ZMODEM_ZHEX_HEADER_CORE_LEN {
            let start = if dir == ZmodemTransferDirection::Upload && s.echo_expected {
                match strip_first_suffix(t.take(p), |i: int| rz_echo_marker(i), 0, 6) {
                    Some(k) => k,
                    None => p,
                }
            } else {
                p
            };
            let (s1, o1) = release(s, start, out);
            let (s2, o2) = present_stars(s1, o1);
            (s2, o2, None)
        } else if !header_accepted(t.subrange(p, p + ZMODEM_ZHEX_HEADER_CORE_LEN), dir) {
            let drop_echo = dir == ZmodemTransferDirection::Upload && s.echo_expected
                && strip_first_suffix(t.take(p), |i: int| rz_echo_marker(i), 0, 6) is Some;
            let (s1, o1) = release(ScanState { echo_expected: s.echo_expected && !drop_echo, ..s }, p + 1, out);
            if s1.held.len() < t.len() {
                scan_held(s1, o1)
            } else {
                (s1, o1, None)
            }
        } else {
            let shown_header = if s.visible > p {
                if s.visible - p < ZMODEM_ZHEX_HEADER_CORE_LEN { s.visible - p } else { ZMODEM_ZHEX_HEADER_CORE_LEN as int }
            } else {
                0
            };
            let raw = t.take(p);
            let ordinary = match dir {
                ZmodemTransferDirection::Download => match strip_first_suffix(raw, |i: int| autostart_marker(i), 0, 3) {
                    Some(k) => raw.take(k),
                    None => raw,
                },
                ZmodemTransferDirection::Upload => if s.echo_expected {
                    match strip_first_suffix(raw, |i: int| rz_echo_marker(i), 0, 6) {
                        Some(k) => raw.take(k),
                        None => raw,
                    }
                } else {
                    raw
                },
            };
            let o1 = if ordinary.len() > s.visible { out + t.subrange(s.visible as int, ordinary.len() as int) } else { out };
            (
                ScanState { held: Seq::empty(), visible: 0, echo_expected: false },
                o1 + erase_cells(shown_header as nat),
                Some((dir, t.skip(p))),
            )
        },
    }
}

proof fn lemma_leading_stars_bound(t: Seq<u8>)
    ensures
        leading_stars(t) <= t.len(),
    decreases t.len(),
{
    if t.len() > 0 && t[0] == 0x2a {
        lemma_leading_stars_bound(t.drop_first());
    }
}

/// Every byte not shown yet is shown exactly once: until a transfer starts,
/// what the terminal got, followed by the held-back bytes it does not show
/// yet, is everything that came in. A rejected header is replayed in full.
pub proof fn lemma_scan_replays_every_byte(s: ScanState, out: Seq<u8>)
    requires
        s.visible <= s.held.len(),
    ensures
        ({
            let (s2, o2, started) = scan_held(s, out);
            &&& s2.visible <= s2.held.len()
            &&& started is None ==> o2 + s2.held.skip(s2.visible as int) == out + s.held.skip(s.visible as int)
        }),
    decreases s.held.len(),
{
    let t = s.held;
    crate::bytes::lemma_first_occurrence_from(t, zrinit_prefix(), 0);
    crate::bytes::lemma_first_occurrence_from(t, zrqinit_prefix(), 0);
    match zmodem_prefix_of(t) {
        None => {
            let keep = max_int(
                max_int(partial_marker_suffix(t, zrqinit_prefix()), partial_marker_suffix(t, zrinit_prefix())),
                if s.echo_expected { echo_candidate_len(t) } else { 0 },
            );
            let emit = if t.len() > keep { t.len() - keep } else { 0 };
            lemma_release_keeps_bytes(s, emit, out);
            let (s1, o1) = release(s, emit, out);
            lemma_present_keeps_bytes(s1, o1);
        },
        Some((p, dir)) => if t.len() < p + ZMODEM_ZHEX_HEADER_CORE_LEN {
            let start = if dir == ZmodemTransferDirection::Upload && s.echo_expected {
                match strip_first_suffix(t.take(p), |i: int| rz_echo_marker(i), 0, 6) {
                    Some(k) => k,
                    None => p,
                }
            } else {
                p
            };
            lemma_strip_bound(t.take(p), |i: int| rz_echo_marker(i), 0, 6);
            lemma_release_keeps_bytes(s, start, out);
            let (s1, o1) = release(s, start, out);
            lemma_present_keeps_bytes(s1, o1);
        } else if !header_accepted(t.subrange(p, p + ZMODEM_ZHEX_HEADER_CORE_LEN), dir) {
            let drop_echo = dir == ZmodemTransferDirection::Upload && s.echo_expected
                && strip_first_suffix(t.take(p), |i: int| rz_echo_marker(i), 0, 6) is Some;
            let s0 = ScanState { echo_expected: s.echo_expected && !drop_echo, ..s };
            lemma_release_keeps_bytes(s0, p + 1, out);
            let (s1, o1) = release(s0, p + 1, out);
            if s1.held.len() < t.len() {
                lemma_scan_replays_every_byte(s1, o1);
            }
        } else {
        },
    }
}

proof fn lemma_release_keeps_bytes(s: ScanState, len: int, out: Seq<u8>)
    requires
        s.visible <= s.held.len(),
        len >= 0,
    ensures
        ({
            let (s1, o1) = release(s, len, out);
            &&& s1.visible <= s1.held.len()
            &&& o1 + s1.held.skip(s1.visible as int) == out + s.held.skip(s.visible as int)
        }),
{
    let l = if len < s.held.len() { len } else { s.held.len() as int };
    let (s1, o1) = release(s, len, out);
    if s.visible <= l {
        assert(s.held.subrange(s.visible as int, l) + s.held.skip(l) =~= s.held.skip(s.visible as int));
        assert(s1.held.skip(0) =~= s1.held);
        assert(o1 + s1.held.skip(s1.visible as int) =~= out + s.held.skip(s.visible as int));
    } else {
        assert(s.held.subrange(l, l) =~= Seq::<u8>::empty());
        assert(s.held.skip(l).skip(s.visible - l) =~= s.held.skip(s.visible as int));
        assert(o1 + s1.held.skip(s1.visible as int) =~= out + s.held.skip(s.visible as int));
    }
}

proof fn lemma_present_keeps_bytes(s: ScanState, out: Seq<u8>)
    requires
        s.visible <= s.held.len(),
    ensures
        ({
            let (s1, o1) = present_stars(s, out);
            &&& s1.visible <= s1.held.len()
            &&& o1 + s1.held.skip(s1.visible as int) == out + s.held.skip(s.visible as int)
        }),
{
    lemma_leading_stars_bound(s.held);
    let stars = leading_stars(s.held);
    if stars > s.visible {
        assert(s.held.subrange(s.visible as int, stars as int) + s.held.skip(stars as int) =~= s.held.skip(s.visible as int));
    }
}

/// What one call of `scan` hands back: the bytes the terminal gets, and the
/// direction and first protocol bytes of a transfer that starts, if one does.
#[derive(Debug, Clone, PartialEq, Eq)]
pub struct ScanOutcome {
    pub terminal_bytes: Vec<u8>,
    pub started: Option<(ZmodemTransferDirection, Vec<u8>)>,
}

pub open spec fn started_view(s: Option<(ZmodemTransferDirection, Vec<u8>)>) -> Option<(ZmodemTransferDirection, Seq<u8>)> {
    match s {
        Some((d, b)) => Some((d, b@)),
        None => None,
    }
}

/// Remote output on its way to the terminal while no transfer runs.
#[derive(Debug)]
pub struct ZmodemPrefixScanner {
    tentative: Vec<u8>,
    visible_prefix_len: usize,
    automatic_rz_echo_expected: bool,
}

impl View for ZmodemPrefixScanner {
    type V = ScanState;

    closed spec fn view(&self) -> ScanState {
        ScanState {
            held: self.tentative@,
            visible: self.visible_prefix_len as nat,
            echo_expected: self.automatic_rz_echo_expected,
        }
    }
}

proof fn lemma_strip_bound(b: Seq<u8>, markers: spec_fn(int) -> Seq<u8>, from: int, count: int)
    ensures
        strip_first_suffix(b, markers, from, count) matches Some(k) ==> 0 <= k <= b.len(),
    decreases count - from,
{
    if from < count && from >= 0 && !has_suffix(b, markers(from)) {
        lemma_strip_bound(b, markers, from + 1, count);
    }
}

proof fn lemma_leading_stars_is(t: Seq<u8>, k: int)
    requires
        0 <= k <= t.len(),
        forall|j: int| 0 <= j < k ==> #[trigger] t[j] == 0x2a,
        k == t.len() || t[k] != 0x2a,
    ensures
        leading_stars(t) == k,
    decreases k,
{
    if k > 0 {
        let u = t.drop_first();
        assert forall|j: int| 0 <= j < k - 1 implies #[trigger] u[j] == 0x2a by {
            assert(u[j] == t[j + 1]);
        }
        if k - 1 < u.len() {
            assert(u[k - 1] == t[k]);
        }
        lemma_leading_stars_is(u, k - 1);
    }
}

proof fn lemma_erase_cells_push(n: nat)
    ensures
        erase_cells(n + 1) == erase_cells(n) + erase_cell(),
{
}

impl ZmodemPrefixScanner {
    #[verifier::type_invariant]
    closed spec fn visible_within_held(&self) -> bool {
        self.visible_prefix_len <= self.tentative@.len()
    }

    /// Nothing is held back and the echo of `rz` is not expected.
    pub fn new() -> (r: Self)
        ensures
            r@ == (ScanState { held: Seq::empty(), visible: 0, echo_expected: false }),
    {
        ZmodemPrefixScanner { tentative: Vec::new(), visible_prefix_len: 0, automatic_rz_echo_expected: false }
    }

    /// The bytes held back.
    pub fn held_bytes(&self) -> (r: &[u8])
        ensures
            r@ == self@.held,
    {
        self.tentative.as_slice()
    }

    /// How many of the held-back bytes the terminal shows already.
    pub fn visible_len(&self) -> (r: usize)
        ensures
            r == self@.visible,
            r <= self@.held.len(),
    {
        proof { use_type_invariant(self); }
        self.visible_prefix_len
    }

    /// The user typed: whatever `rz` echo was expected will not come.
    pub fn note_local_input(&mut self)
        ensures
            final(self)@ == (ScanState { echo_expected: false, ..old(self)@ }),
    {
        proof { use_type_invariant(&*self); }
        self.automatic_rz_echo_expected = false;
    }

    /// This program typed its own `rz` command; its echo is expected.
    pub fn expect_automatic_rz_echo(&mut self)
        ensures
            final(self)@ == (ScanState { echo_expected: true, ..old(self)@ }),
    {
        proof { use_type_invariant(&*self); }
        self.automatic_rz_echo_expected = true;
    }

    pub fn cancel_automatic_rz_echo_expectation(&mut self)
        ensures
            final(self)@ == (ScanState { echo_expected: false, ..old(self)@ }),
    {
        proof { use_type_invariant(&*self); }
        self.automatic_rz_echo_expected = false;
    }

    /// Gives up holding back: the held bytes not shown yet go to the terminal.
    pub fn flush(&mut self) -> (r: Vec<u8>)
        ensures
            r@ == old(self)@.held.skip(old(self)@.visible as int),
            final(self)@ == (ScanState { held: Seq::empty(), visible: 0, ..old(self)@ }),
    {
        proof { use_type_invariant(&*self); }
        let n = self.tentative.len();
        let r = copy_range(self.tentative.as_slice(), self.visible_prefix_len, n);
        assert(r@ =~= old(self)@.held.skip(old(self)@.visible as int));
        let e = self.automatic_rz_echo_expected;
        *self = ZmodemPrefixScanner { tentative: Vec::new(), visible_prefix_len: 0, automatic_rz_echo_expected: e };
        r
    }

    fn release_prefix(&mut self, len: usize, out: &mut Vec<u8>)
        ensures
            (final(self)@, final(out)@) == release(old(self)@, len as int, old(out)@),
    {
        proof { use_type_invariant(&*self); }
        let n = self.tentative.len();
        let l = if len < n { len } else { n };
        let v = self.visible_prefix_len;
        let already = if v < l { v } else { l };
        extend_range(out, self.tentative.as_slice(), already, l);
        let rest = copy_range(self.tentative.as_slice(), l, n);
        assert(rest@ =~= old(self)@.held.skip(l as int));
        let nv = if v > l { v - l } else { 0 };
        let e = self.automatic_rz_echo_expected;
        *self = ZmodemPrefixScanner { tentative: rest, visible_prefix_len: nv, automatic_rz_echo_expected: e };
    }

    fn present_tentative_stars(&mut self, out: &mut Vec<u8>)
        ensures
            (final(self)@, final(out)@) == present_stars(old(self)@, old(out)@),
    {
        proof { use_type_invariant(&*self); }
        let n = self.tentative.len();
        let mut k: usize = 0;
        while k < n && self.tentative[k] == 0x2a
            invariant
                k <= n,
                n == self.tentative@.len(),
                forall|j: int| 0 <= j < k ==> #[trigger] self.tentative@[j] == 0x2a,
            decreases n - k,
        {
            k = k + 1;
        }
        proof { lemma_leading_stars_is(self.tentative@, k as int); }
        let v = self.visible_prefix_len;
        if k <= v {
            return;
        }
        extend_range(out, self.tentative.as_slice(), v, k);
        self.visible_prefix_len = k;
    }

    /// Takes remote output while no transfer runs; see `scan_held` for what
    /// becomes of it. Empty output changes nothing.
    pub fn scan(&mut self, bytes: &[u8]) -> (r: ScanOutcome)
        ensures
            bytes@.len() == 0 ==> final(self)@ == old(self)@ && r.terminal_bytes@.len() == 0 && r.started is None,
            bytes@.len() > 0 ==> ({
                let (s, out, started) = scan_held(ScanState { held: old(self)@.held + bytes@, ..old(self)@ }, Seq::empty());
                &&& final(self)@ == s
                &&& r.terminal_bytes@ == out
                &&& started_view(r.started) == started
            }),
    {
        if bytes.len() == 0 {
            return ScanOutcome { terminal_bytes: Vec::new(), started: None };
        }
        proof { use_type_invariant(&*self); }
        let ghost s0 = ScanState { held: old(self)@.held + bytes@, ..old(self)@ };
        let mut grown = copy_range(self.tentative.as_slice(), 0, self.tentative.len());
        assert(grown@ =~= old(self)@.held);
        extend_range(&mut grown, bytes, 0, bytes.len());
        assert(bytes@.subrange(0, bytes@.len() as int) =~= bytes@);
        let v0 = self.visible_prefix_len;
        let e0 = self.automatic_rz_echo_expected;
        *self = ZmodemPrefixScanner { tentative: grown, visible_prefix_len: v0, automatic_rz_echo_expected: e0 };
        assert(self@ == s0);
        let zrqinit = zrqinit_prefix_bytes();
        let zrinit = zrinit_prefix_bytes();
        let mut out: Vec<u8> = Vec::new();
        loop
            invariant
                zrqinit@ == zrqinit_prefix(),
                zrinit@ == zrinit_prefix(),
                bytes@.len() > 0,
                s0 == (ScanState { held: old(self)@.held + bytes@, ..old(self)@ }),
                scan_held(s0, Seq::empty()) == scan_held(self@, out@),
            decreases self.tentative@.len(),
        {
            proof { use_type_invariant(&*self); }
            let ghost s = self@;
            let found = find_zmodem_prefix(self.tentative.as_slice());
            match found {
                None => {
                    let a = partial_marker_suffix_len(self.tentative.as_slice(), zrqinit.as_slice());
                    let b = partial_marker_suffix_len(self.tentative.as_slice(), zrinit.as_slice());
                    let c = if self.automatic_rz_echo_expected {
                        automatic_rz_echo_candidate_suffix_len(self.tentative.as_slice())
                    } else {
                        0
                    };
                    let ab = if a >= b { a } else { b };
                    let keep = if ab >= c { ab } else { c };
                    let n = self.tentative.len();
                    let emit = if n > keep { n - keep } else { 0 };
                    self.release_prefix(emit, &mut out);
                    self.present_tentative_stars(&mut out);
                    return ScanOutcome { terminal_bytes: out, started: None };
                },
                Some((p, dir)) => {
                    proof {
                        crate::bytes::lemma_first_occurrence_from(s.held, zrinit_prefix(), 0);
                        crate::bytes::lemma_first_occurrence_from(s.held, zrqinit_prefix(), 0);
                    }
                    let n = self.tentative.len();
                    assert(p + 6 <= n);
                    if p > n || n - p < ZMODEM_ZHEX_HEADER_CORE_LEN {
                        let start = if dir == ZmodemTransferDirection::Upload && self.automatic_rz_echo_expected {
                            let before = vstd::slice::slice_subrange(self.tentative.as_slice(), 0, p);
                            assert(before@ =~= s.held.take(p as int));
                            match automatic_rz_echo_start(before) {
                                Some(k) => k,
                                None => p,
                            }
                        } else {
                            p
                        };
                        self.release_prefix(start, &mut out);
                        self.present_tentative_stars(&mut out);
                        return ScanOutcome { terminal_bytes: out, started: None };
                    }
                    let header = vstd::slice::slice_subrange(self.tentative.as_slice(), p, p + ZMODEM_ZHEX_HEADER_CORE_LEN);
                    if !validate_initial_header(header, dir) {
                        let before = vstd::slice::slice_subrange(self.tentative.as_slice(), 0, p);
                        assert(before@ =~= s.held.take(p as int));
                        if dir == ZmodemTransferDirection::Upload && self.automatic_rz_echo_expected
                            && automatic_rz_echo_start(before).is_some() {
                            self.automatic_rz_echo_expected = false;
                        }
                        self.release_prefix(p + 1, &mut out);
                        continue;
                    }
                    let v = self.visible_prefix_len;
                    let shown_header = if v > p {
                        if v - p < ZMODEM_ZHEX_HEADER_CORE_LEN { v - p } else { ZMODEM_ZHEX_HEADER_CORE_LEN }
                    } else {
                        0
                    };
                    let raw = vstd::slice::slice_subrange(self.tentative.as_slice(), 0, p);
                    assert(raw@ =~= s.held.take(p as int));
                    let ordinary_len = match dir {
                        ZmodemTransferDirection::Download => strip_lrzsz_download_autostart_invocation(raw).len(),
                        ZmodemTransferDirection::Upload => if self.automatic_rz_echo_expected {
                            crate::zmodem_model::strip_automatic_rz_echo(raw).len()
                        } else {
                            raw.len()
                        },
                    };
                    proof {
                        lemma_strip_bound(raw@, |i: int| autostart_marker(i), 0, 3);
                        lemma_strip_bound(raw@, |i: int| rz_echo_marker(i), 0, 6);
                    }
                    assert(ordinary_len <= p);
                    if ordinary_len > v {
                        extend_range(&mut out, self.tentative.as_slice(), v, ordinary_len);
                    }
                    let ghost o_before = out@;
                    assert(o_before + erase_cells(0) =~= o_before);
                    let mut i: usize = 0;
                    while i < shown_header
                        invariant
                            i <= shown_header,
                            out@ == o_before + erase_cells(i as nat),
                        decreases shown_header - i,
                    {
                        out.push(0x08);
                        out.push(0x20);
                        out.push(0x08);
                        proof { lemma_erase_cells_push(i as nat); }
                        assert(out@ =~= o_before + erase_cells((i + 1) as nat));
                        i = i + 1;
                    }
                    let protocol = copy_range(self.tentative.as_slice(), p, n);
                    *self = ZmodemPrefixScanner { tentative: Vec::new(), visible_prefix_len: 0, automatic_rz_echo_expected: false };
                    return ScanOutcome { terminal_bytes: out, started: Some((dir, protocol)) };
                },
            }
        }
    }
}

/// `s` is what the transfer dialog shows when a transfer in `direction` has
/// just been spotted: an upload waits for files to be picked, a download for
/// a folder.
pub open spec fn is_initial_state(s: ZmodemTransferState, direction: ZmodemTransferDirection) -> bool {
    match direction {
        ZmodemTransferDirection::Upload => fresh_state(s, direction, ZmodemTransferPhase::AwaitingUploadSelection,
            "ZMODEM Upload"@, "Remote `rz` is waiting for files"@,
            "Choose one or more local files to upload into the current shell session."@,
            "Transfer starts after you confirm the picker."@),
        ZmodemTransferDirection::Download => fresh_state(s, direction, ZmodemTransferPhase::AwaitingDownloadDirectory,
            "ZMODEM Download"@, "Remote `sz` is ready to send files"@,
            "Choose a local folder to receive the download."@,
            "Files will be written into the folder you pick for this transfer."@),
    }
}

/// What the transfer dialog shows when a transfer has just been spotted.
pub fn initial_transfer_state(direction: ZmodemTransferDirection) -> (r: ZmodemTransferState)
    ensures
        is_initial_state(r, direction),
{
    match direction {
        ZmodemTransferDirection::Upload => ZmodemTransferState::new(
            ZmodemTransferDirection::Upload,
            ZmodemTransferPhase::AwaitingUploadSelection,
            "ZMODEM Upload",
            "Remote `rz` is waiting for files",
            "Choose one or more local files to upload into the current shell session.",
            "Transfer starts after you confirm the picker.",
        ),
        ZmodemTransferDirection::Download => ZmodemTransferState::new(
            ZmodemTransferDirection::Download,
            ZmodemTransferPhase::AwaitingDownloadDirectory,
            "ZMODEM Download",
            "Remote `sz` is ready to send files",
            "Choose a local folder to receive the download.",
            "Files will be written into the folder you pick for this transfer.",
        ),
    }
}

} // verus!
