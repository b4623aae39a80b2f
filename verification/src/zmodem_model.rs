//! ZMODEM transfers as the terminal sees them: the state shown to the user,
//! how the start of a transfer is recognised in remote output, what is left
//! on the line after a transfer ends, and the names received files get.

use vstd::prelude::*;
use crate::bytes::{copy_range, ends_with_bytes, has_suffix, find_subsequence, first_occurrence, utf8_lossy, utf8_lossy_text};
use crate::remote_paths::{last_segment, last_segment_of, replace_backslashes, replace_char};
use crate::text::{last_index_of, lead, lemma_last_index_of, lemma_lead_bound, lemma_trail_bound, same_text, trim, trim_start_by, trim_str, ws_pred};

verus! {

#[derive(Debug, Clone, Copy, PartialEq, Eq, Structural)]
pub enum ZmodemTransferDirection {
    Upload,
    Download,
}

#[derive(Debug, Clone, Copy, PartialEq, Eq, Structural)]
pub enum ZmodemTransferPhase {
    AwaitingUploadSelection,
    AwaitingDownloadDirectory,
    Running,
    Completed,
    Failed,
    Cancelled,
}

#[derive(Debug, Clone, Copy, PartialEq, Eq, Structural)]
pub enum ZmodemDownloadConflictPolicy {
    Overwrite,
    AutoRename,
}

#[derive(Debug, Clone, PartialEq, Eq)]
pub struct ZmodemTransferState {
    pub direction: ZmodemTransferDirection,
    pub phase: ZmodemTransferPhase,
    pub title: String,
    pub headline: String,
    pub status_text: String,
    pub detail_text: String,
    pub error_text: String,
    pub current_file_name: String,
    pub files_completed: usize,
    pub files_total: Option<usize>,
    pub bytes_transferred: u64,
    pub bytes_total: Option<u64>,
    pub local_file_path: Option<String>,
    pub local_reveal_path: Option<String>,
}

/// A state with the given texts and nothing transferred yet.
pub open spec fn state_with(
    s: ZmodemTransferState,
    direction: ZmodemTransferDirection,
    phase: ZmodemTransferPhase,
    title: Seq<char>,
    headline: Seq<char>,
    status_text: Seq<char>,
    detail_text: Seq<char>,
    error_text: Seq<char>,
) -> bool {
    &&& s.direction == direction
    &&& s.phase == phase
    &&& s.title@ == title
    &&& s.headline@ == headline
    &&& s.status_text@ == status_text
    &&& s.detail_text@ == detail_text
    &&& s.error_text@ == error_text
    &&& s.current_file_name@.len() == 0
    &&& s.files_completed == 0
    &&& s.files_total.is_none()
    &&& s.bytes_transferred == 0
    &&& s.bytes_total.is_none()
    &&& s.local_file_path.is_none()
    &&& s.local_reveal_path.is_none()
}

/// A state with the given texts, no error, and nothing transferred yet.
pub open spec fn fresh_state(
    s: ZmodemTransferState,
    direction: ZmodemTransferDirection,
    phase: ZmodemTransferPhase,
    title: Seq<char>,
    headline: Seq<char>,
    status_text: Seq<char>,
    detail_text: Seq<char>,
) -> bool {
    state_with(s, direction, phase, title, headline, status_text, detail_text, Seq::empty())
}

impl ZmodemTransferState {
    pub fn new(
        direction: ZmodemTransferDirection,
        phase: ZmodemTransferPhase,
        title: &str,
        headline: &str,
        status_text: &str,
        detail_text: &str,
    ) -> (r: Self)
        ensures
            fresh_state(r, direction, phase, title@, headline@, status_text@, detail_text@),
    {
        ZmodemTransferState {
            direction,
            phase,
            title: String::from_str(title),
            headline: String::from_str(headline),
            status_text: String::from_str(status_text),
            detail_text: String::from_str(detail_text),
            error_text: String::new(),
            current_file_name: String::new(),
            files_completed: 0,
            files_total: None,
            bytes_transferred: 0,
            bytes_total: None,
            local_file_path: None,
            local_reveal_path: None,
        }
    }
}

// ---------------------------------------------------------------------------
// Recognising a transfer
// ---------------------------------------------------------------------------

/// `**` CAN `B00`: the sender's request to start (the remote ran `sz`).
pub open spec fn zrqinit_prefix() -> Seq<u8> {
    seq![0x2au8, 0x2a, 0x18, 0x42, 0x30, 0x30]
}

/// `**` CAN `B01`: the receiver's readiness (the remote ran `rz`).
pub open spec fn zrinit_prefix() -> Seq<u8> {
    seq![0x2au8, 0x2a, 0x18, 0x42, 0x30, 0x31]
}

pub fn zrqinit_prefix_bytes() -> (r: Vec<u8>)
    ensures
        r@ == zrqinit_prefix(),
{
    let r: Vec<u8> = vec![0x2a, 0x2a, 0x18, 0x42, 0x30, 0x30];
    assert(r@ =~= zrqinit_prefix());
    r
}

pub fn zrinit_prefix_bytes() -> (r: Vec<u8>)
    ensures
        r@ == zrinit_prefix(),
{
    let r: Vec<u8> = vec![0x2a, 0x2a, 0x18, 0x42, 0x30, 0x31];
    assert(r@ =~= zrinit_prefix());
    r
}

/// The earliest start of a transfer in `b` and its direction, an upload
/// winning a tie.
pub open spec fn zmodem_prefix_of(b: Seq<u8>) -> Option<(int, ZmodemTransferDirection)> {
    match (first_occurrence(b, zrinit_prefix()), first_occurrence(b, zrqinit_prefix())) {
        (Some(u), Some(d)) => if u <= d {
            Some((u, ZmodemTransferDirection::Upload))
        } else {
            Some((d, ZmodemTransferDirection::Download))
        },
        (Some(u), None) => Some((u, ZmodemTransferDirection::Upload)),
        (None, Some(d)) => Some((d, ZmodemTransferDirection::Download)),
        (None, None) => None,
    }
}

pub fn find_zmodem_prefix(bytes: &[u8]) -> (r: Option<(usize, ZmodemTransferDirection)>)
    ensures
        match r {
            Some((i, d)) => zmodem_prefix_of(bytes@) == Some((i as int, d)),
            None => zmodem_prefix_of(bytes@) is None,
        },
{
    let zrinit = zrinit_prefix_bytes();
    let zrqinit = zrqinit_prefix_bytes();
    let upload = find_subsequence(bytes, zrinit.as_slice());
    let download = find_subsequence(bytes, zrqinit.as_slice());
    match (upload, download) {
        (Some(u), Some(d)) => if u <= d {
            Some((u, ZmodemTransferDirection::Upload))
        } else {
            Some((d, ZmodemTransferDirection::Download))
        },
        (Some(u), None) => Some((u, ZmodemTransferDirection::Upload)),
        (None, Some(d)) => Some((d, ZmodemTransferDirection::Download)),
        (None, None) => None,
    }
}

// ---------------------------------------------------------------------------
// Received file names
// ---------------------------------------------------------------------------

/// The local name of a received file: the last segment of the sent name
/// (either slash separating), trimmed, or `download` when that is empty,
/// `.` or `..`.
pub open spec fn safe_file_name(name: Seq<char>) -> Seq<char> {
    let segment = trim(last_segment(replace_char(name, '\\', '/')));
    if segment.len() == 0 || segment == "."@ || segment == ".."@ {
        "download"@
    } else {
        segment
    }
}

/// A received file always lands directly in the chosen folder: its local name
/// is never empty, `.` or `..`, and holds no separator of either kind.
pub proof fn lemma_safe_file_name_is_a_base_name(name: Seq<char>)
    ensures
        safe_file_name(name).len() > 0,
        safe_file_name(name) != "."@,
        safe_file_name(name) != ".."@,
        !safe_file_name(name).contains('/'),
        !safe_file_name(name).contains('\\'),
{
    reveal_strlit("download");
    reveal_strlit(".");
    reveal_strlit("..");
    let normalized = replace_char(name, '\\', '/');
    let path = normalized;
    let seg = last_segment(path);
    lemma_last_index_of(path, '/');
    let i = last_index_of(path, '/');
    assert forall|j: int| 0 <= j < seg.len() implies seg[j] != '/' && seg[j] != '\\' by {
        assert(seg[j] == path[i + 1 + j]);
        assert(path[i + 1 + j] == (if name[i + 1 + j] == '\\' { '/' } else { name[i + 1 + j] }));
    }
    let t = trim(seg);
    lemma_lead_bound(seg, ws_pred());
    let st = trim_start_by(seg, ws_pred());
    lemma_trail_bound(st, ws_pred());
    assert forall|j: int| 0 <= j < t.len() implies t[j] != '/' && t[j] != '\\' by {
        assert(t[j] == st[j]);
        assert(st[j] == seg[lead(seg, ws_pred()) + j]);
    }
    if t.len() == 0 || t == "."@ || t == ".."@ {
        assert("download"@[0] == 'd');
    }
    assert("download"@ =~= seq!['d', 'o', 'w', 'n', 'l', 'o', 'a', 'd']);
}

/// Sanitises a name already decoded.
pub fn safe_file_name_of(name: &str) -> (r: String)
    ensures
        r@ == safe_file_name(name@),
{
    let normalized = replace_backslashes(name);
    let segment = last_segment_of(normalized.as_str());
    let trimmed = trim_str(segment.as_str());
    if trimmed.as_str().unicode_len() == 0 || same_text(trimmed.as_str(), ".") || same_text(trimmed.as_str(), "..") {
        String::from_str("download")
    } else {
        trimmed
    }
}

/// The local name of a file whose name the sender sent as `raw_name`.
pub fn sanitize_zmodem_file_name(raw_name: &[u8]) -> (r: String)
    ensures
        r@ == safe_file_name(utf8_lossy_text(raw_name@)),
{
    let lossy = utf8_lossy(raw_name);
    safe_file_name_of(lossy.as_str())
}

// ---------------------------------------------------------------------------
// After a transfer
// ---------------------------------------------------------------------------

#[derive(Debug, Clone, Copy, PartialEq, Eq, Structural)]
pub enum PostSessionTailStage {
    Trailer,
    OverAndOut,
}

/// The bytes that `lrzsz` prints after a transfer, which the terminal must not
/// show: a line end, and after a download the `OO` ("over and out") too.
#[derive(Debug, Clone, PartialEq, Eq)]
pub struct PostSessionTail {
    pub direction: ZmodemTransferDirection,
    pub stage: PostSessionTailStage,
    pub candidate: Vec<u8>,
}

#[derive(Debug, Clone, PartialEq, Eq)]
pub enum PostSessionTailOutcome {
    Pending,
    Released(Vec<u8>),
}

/// `c` can still become (or is) what `stage` expects.
pub open spec fn tail_matches(stage: PostSessionTailStage, c: Seq<u8>) -> bool {
    match stage {
        PostSessionTailStage::Trailer => c =~= seq![0x0du8] || c =~= seq![0x0du8, 0x0a] || c =~= seq![0x0du8, 0x8a],
        PostSessionTailStage::OverAndOut => c =~= seq![0x4fu8] || c =~= seq![0x4fu8, 0x4f],
    }
}

/// Reading `b` after `candidate` in `stage`: the released bytes (`None` while
/// still expecting more), and the stage and candidate afterwards.
pub open spec fn tail_consume(
    direction: ZmodemTransferDirection,
    stage: PostSessionTailStage,
    candidate: Seq<u8>,
    b: Seq<u8>,
) -> (Option<Seq<u8>>, PostSessionTailStage, Seq<u8>)
    decreases b.len(),
{
    if b.len() == 0 {
        (None, stage, candidate)
    } else {
        let c = candidate.push(b[0]);
        let rest = b.drop_first();
        if !tail_matches(stage, c) {
            (Some(c + rest), stage, Seq::empty())
        } else if c.len() != 2 {
            tail_consume(direction, stage, c, rest)
        } else if stage == PostSessionTailStage::Trailer && direction == ZmodemTransferDirection::Download {
            tail_consume(direction, PostSessionTailStage::OverAndOut, Seq::empty(), rest)
        } else {
            (Some(rest), stage, Seq::empty())
        }
    }
}

/// The bytes a finished transfer may leave in front of the prompt: nothing,
/// a line end, and after a download a line end followed by `OO`.
pub open spec fn expected_tail(direction: ZmodemTransferDirection, d: Seq<u8>) -> bool {
    let trailer = d.len() >= 2 && d[0] == 0x0d && (d[1] == 0x0a || d[1] == 0x8a);
    ||| d.len() == 0
    ||| (trailer && d.len() == 2)
    ||| (trailer && direction == ZmodemTransferDirection::Download && d.len() == 4 && d[2] == 0x4f && d[3] == 0x4f)
}

/// A fresh tail withholds only the bytes that a finished transfer is expected
/// to leave: what it releases is the input without such a prefix, and while it
/// releases nothing the input is shorter than the longest expected tail.
pub proof fn lemma_post_session_tail_drops_only_expected(direction: ZmodemTransferDirection, b: Seq<u8>)
    ensures
        match tail_consume(direction, PostSessionTailStage::Trailer, Seq::empty(), b).0 {
            Some(x) => exists|k: int| 0 <= k <= b.len() && x == b.skip(k) && expected_tail(direction, #[trigger] b.take(k)),
            None => b.len() < 4,
        },
{
    reveal_with_fuel(tail_consume, 6);
    let t = tail_consume(direction, PostSessionTailStage::Trailer, Seq::empty(), b);
    if b.len() >= 1 {
        let c1 = Seq::<u8>::empty().push(b[0]);
        assert(c1 =~= seq![b[0]]);
        assert(c1 + b.drop_first() =~= b);
        assert(b.skip(0) =~= b);
        assert(b.take(0) =~= Seq::<u8>::empty());
    }
    if b.len() >= 2 {
        let c2 = seq![b[0]].push(b[1]);
        assert(c2 =~= seq![b[0], b[1]]);
        assert(c2 + b.drop_first().drop_first() =~= b);
        assert(b.drop_first().drop_first() =~= b.skip(2));
        assert(b.drop_first()[0] == b[1]);
    }
    if b.len() >= 3 {
        let r2 = b.drop_first().drop_first();
        assert(r2[0] == b[2]);
        assert(seq![b[2]] + r2.drop_first() =~= b.skip(2));
        assert(Seq::<u8>::empty().push(r2[0]) =~= seq![b[2]]);
    }
    if b.len() >= 4 {
        let r3 = b.drop_first().drop_first().drop_first();
        assert(r3[0] == b[3]);
        assert(seq![b[2]].push(r3[0]) =~= seq![b[2], b[3]]);
        assert(seq![b[2], b[3]] + r3.drop_first() =~= b.skip(2));
        assert(r3.drop_first() =~= b.skip(4));
    }
    match t.0 {
        Some(x) => {
            if x == b {
                assert(expected_tail(direction, b.take(0)));
            } else if x == b.skip(2) {
                assert(expected_tail(direction, b.take(2)));
            } else {
                assert(expected_tail(direction, b.take(4)));
            }
        },
        None => {},
    }
}

pub open spec fn outcome_view(o: PostSessionTailOutcome) -> Option<Seq<u8>> {
    match o {
        PostSessionTailOutcome::Pending => None,
        PostSessionTailOutcome::Released(b) => Some(b@),
    }
}

fn tail_byte_matches(stage: PostSessionTailStage, c: &Vec<u8>) -> (r: bool)
    ensures
        r == tail_matches(stage, c@),
{
    match stage {
        PostSessionTailStage::Trailer => {
            if c.len() == 1 {
                c[0] == 0x0d
            } else if c.len() == 2 {
                c[0] == 0x0d && (c[1] == 0x0a || c[1] == 0x8a)
            } else {
                false
            }
        },
        PostSessionTailStage::OverAndOut => {
            if c.len() == 1 {
                c[0] == 0x4f
            } else if c.len() == 2 {
                c[0] == 0x4f && c[1] == 0x4f
            } else {
                false
            }
        },
    }
}

impl PostSessionTail {
    pub fn new(direction: ZmodemTransferDirection) -> (r: Self)
        ensures
            r.direction == direction,
            r.stage == PostSessionTailStage::Trailer,
            r.candidate@.len() == 0,
    {
        PostSessionTail { direction, stage: PostSessionTailStage::Trailer, candidate: Vec::new() }
    }

    /// Reads the next remote bytes: `Pending` while they are all part of the
    /// expected tail, else what follows the tail (or everything, from the
    /// first unexpected byte's candidate on, when the tail is broken).
    pub fn consume(&mut self, bytes: &[u8]) -> (r: PostSessionTailOutcome)
        ensures
            ({
                let (out, stage, cand) = tail_consume(old(self).direction, old(self).stage, old(self).candidate@, bytes@);
                &&& outcome_view(r) == out
                &&& final(self).stage == stage
                &&& final(self).candidate@ == cand
                &&& final(self).direction == old(self).direction
            }),
    {
        let n = bytes.len();
        let mut offset: usize = 0;
        assert(bytes@.skip(0) =~= bytes@);
        while offset < n
            invariant
                n == bytes@.len(),
                offset <= n,
                self.direction == old(self).direction,
                tail_consume(old(self).direction, old(self).stage, old(self).candidate@, bytes@)
                    == tail_consume(self.direction, self.stage, self.candidate@, bytes@.skip(offset as int)),
            decreases n - offset,
        {
            let ghost b = bytes@.skip(offset as int);
            assert(b[0] == bytes@[offset as int]);
            assert(b.drop_first() =~= bytes@.skip(offset + 1));
            self.candidate.push(bytes[offset]);
            offset = offset + 1;
            if !tail_byte_matches(self.stage, &self.candidate) {
                let ghost c = self.candidate@;
                crate::bytes::extend_range(&mut self.candidate, bytes, offset, n);
                assert(bytes@.subrange(offset as int, n as int) =~= bytes@.skip(offset as int));
                let mut released: Vec<u8> = Vec::new();
                std::mem::swap(&mut released, &mut self.candidate);
                return PostSessionTailOutcome::Released(released);
            }
            if self.candidate.len() != 2 {
                continue;
            }
            self.candidate.clear();
            if self.stage == PostSessionTailStage::Trailer && self.direction == ZmodemTransferDirection::Download {
                self.stage = PostSessionTailStage::OverAndOut;
            } else {
                let rest = copy_range(bytes, offset, n);
                assert(bytes@.subrange(offset as int, n as int) =~= bytes@.skip(offset as int));
                return PostSessionTailOutcome::Released(rest);
            }
        }
        assert(bytes@.skip(offset as int) =~= Seq::<u8>::empty());
        PostSessionTailOutcome::Pending
    }
}

// ---------------------------------------------------------------------------
// Feeding the protocol engine
// ---------------------------------------------------------------------------

/// A protocol engine refused the bytes it was given.
#[derive(Debug, Clone, PartialEq, Eq)]
pub struct WireSubmitError {
    pub message: String,
}

/// `submit`, offered `rest`, took none of it.
pub open spec fn wire_refused_rest<F: FnMut(&[u8]) -> Result<usize, WireSubmitError>>(submit: F, rest: Seq<u8>) -> bool {
    exists|chunk: &[u8]| chunk@ == rest && #[trigger] call_ensures(submit, (chunk,), Ok::<usize, WireSubmitError>(0usize))
}

/// `submit`, offered a part of `pending` that ends where it ends, failed
/// with `e`.
pub open spec fn wire_failed_on<F: FnMut(&[u8]) -> Result<usize, WireSubmitError>>(submit: F, pending: Seq<u8>, e: WireSubmitError) -> bool {
    exists|chunk: &[u8]| (exists|k: int| 0 <= k <= pending.len() && chunk@ == pending.skip(k))
        && #[trigger] call_ensures(submit, (chunk,), Err::<usize, WireSubmitError>(e))
}

/// Offers the pending bytes to `submit` until it takes none or all are taken,
/// then drops the bytes it took. An error is one that `submit` gave for the
/// bytes still pending; on an error nothing is dropped.
pub fn flush_pending_wire<F>(pending_wire: &mut Vec<u8>, mut submit: F) -> (r: Result<(), WireSubmitError>)
    where
        F: FnMut(&[u8]) -> Result<usize, WireSubmitError>,
    requires
        forall|chunk: &[u8]| #[trigger] call_requires(submit, (chunk,)),
        forall|chunk: &[u8], res: Result<usize, WireSubmitError>|
            call_ensures(submit, (chunk,), res) ==> (res matches Ok(n) ==> n <= chunk@.len()),
    ensures
        match r {
            Ok(()) => exists|k: int| {
                &&& 0 <= k <= old(pending_wire)@.len()
                &&& final(pending_wire)@ == old(pending_wire)@.skip(k)
                &&& (k == old(pending_wire)@.len() || wire_refused_rest(submit, old(pending_wire)@.skip(k)))
            },
            Err(e) => final(pending_wire)@ == old(pending_wire)@ && wire_failed_on(submit, old(pending_wire)@, e),
        },
{
    let ghost entry_submit = submit;
    let n = pending_wire.len();
    let mut consumed_total: usize = 0;
    let mut refused = false;
    let mut failure: Option<WireSubmitError> = None;
    while consumed_total < n
        invariant_except_break
            !refused,
            failure is None,
        invariant
            n == pending_wire@.len(),
            consumed_total <= n,
            pending_wire@ == old(pending_wire)@,
            submit == entry_submit,
            forall|chunk: &[u8]| #[trigger] call_requires(submit, (chunk,)),
            forall|chunk: &[u8], res: Result<usize, WireSubmitError>|
                call_ensures(submit, (chunk,), res) ==> (res matches Ok(n) ==> n <= chunk@.len()),
        ensures
            n == pending_wire@.len(),
            consumed_total <= n,
            pending_wire@ == old(pending_wire)@,
            match failure {
                Some(e) => wire_failed_on(submit, old(pending_wire)@, e),
                None => consumed_total == n || (refused && wire_refused_rest(submit, old(pending_wire)@.skip(consumed_total as int))),
            },
        decreases n - consumed_total,
    {
        let chunk = vstd::slice::slice_subrange(pending_wire.as_slice(), consumed_total, n);
        assert(chunk@ =~= old(pending_wire)@.skip(consumed_total as int));
        let consumed = match submit(chunk) {
            Ok(c) => c,
            Err(e) => {
                assert(wire_failed_on(submit, old(pending_wire)@, e));
                failure = Some(e);
                break;
            },
        };
        if consumed == 0 {
            assert(wire_refused_rest(submit, old(pending_wire)@.skip(consumed_total as int)));
            refused = true;
            break;
        }
        consumed_total = consumed_total + consumed;
    }
    match failure {
        Some(e) => {
            return Err(e);
        },
        None => {},
    }
    if consumed_total > 0 {
        let rest = copy_range(pending_wire.as_slice(), consumed_total, n);
        assert(pending_wire@.subrange(consumed_total as int, n as int) =~= pending_wire@.skip(consumed_total as int));
        *pending_wire = rest;
    } else {
        assert(pending_wire@.skip(0) =~= pending_wire@);
    }
    Ok(())
}

/// Appends `bytes` to the pending bytes and offers them to `submit`.
pub fn buffer_protocol_wire<F>(pending_wire: &mut Vec<u8>, bytes: &[u8], submit: F) -> (r: Result<(), WireSubmitError>)
    where
        F: FnMut(&[u8]) -> Result<usize, WireSubmitError>,
    requires
        forall|chunk: &[u8]| #[trigger] call_requires(submit, (chunk,)),
        forall|chunk: &[u8], res: Result<usize, WireSubmitError>|
            call_ensures(submit, (chunk,), res) ==> (res matches Ok(n) ==> n <= chunk@.len()),
    ensures
        match r {
            Ok(()) => exists|k: int| {
                &&& 0 <= k <= old(pending_wire)@.len() + bytes@.len()
                &&& final(pending_wire)@ == (old(pending_wire)@ + bytes@).skip(k)
                &&& (k == old(pending_wire)@.len() + bytes@.len()
                    || wire_refused_rest(submit, (old(pending_wire)@ + bytes@).skip(k)))
            },
            Err(e) => final(pending_wire)@ == old(pending_wire)@ + bytes@
                && wire_failed_on(submit, old(pending_wire)@ + bytes@, e),
        },
{
    crate::bytes::extend_range(pending_wire, bytes, 0, bytes.len());
    assert(bytes@.subrange(0, bytes@.len() as int) =~= bytes@);
    flush_pending_wire(pending_wire, submit)
}

// ---------------------------------------------------------------------------
// Echoes of the commands that start a transfer
// ---------------------------------------------------------------------------

/// What `lrzsz`'s `sz` may print before a download starts: `rz` and a line end.
pub open spec fn autostart_marker(i: int) -> Seq<u8> {
    if i == 0 {
        seq![0x72u8, 0x7a, 0x0d, 0x0a]
    } else if i == 1 {
        seq![0x72u8, 0x7a, 0x0d]
    } else {
        seq![0x72u8, 0x7a, 0x0a]
    }
}

/// The shell's echo of an `rz` command that this program typed itself.
pub open spec fn rz_echo_marker(i: int) -> Seq<u8> {
    if i == 0 {
        seq![0x20u8, 0x72, 0x7a, 0x20, 0x2d, 0x71, 0x0d, 0x0a]
    } else if i == 1 {
        seq![0x20u8, 0x72, 0x7a, 0x20, 0x2d, 0x71, 0x0d]
    } else if i == 2 {
        seq![0x20u8, 0x72, 0x7a, 0x20, 0x2d, 0x71, 0x0a]
    } else if i == 3 {
        seq![0x20u8, 0x72, 0x7a, 0x0d, 0x0a]
    } else if i == 4 {
        seq![0x20u8, 0x72, 0x7a, 0x0d]
    } else {
        seq![0x20u8, 0x72, 0x7a, 0x0a]
    }
}

/// `b` without the first of `count` markers (tried in order) that ends it.
pub open spec fn strip_first_suffix(b: Seq<u8>, markers: spec_fn(int) -> Seq<u8>, from: int, count: int) -> Option<int>
    decreases count - from,
{
    if from >= count || from < 0 {
        None
    } else if has_suffix(b, markers(from)) {
        Some(b.len() - markers(from).len())
    } else {
        strip_first_suffix(b, markers, from + 1, count)
    }
}

fn autostart_marker_bytes(i: usize) -> (r: Vec<u8>)
    requires
        i < 3,
    ensures
        r@ == autostart_marker(i as int),
{
    let r: Vec<u8> = if i == 0 {
        vec![0x72, 0x7a, 0x0d, 0x0a]
    } else if i == 1 {
        vec![0x72, 0x7a, 0x0d]
    } else {
        vec![0x72, 0x7a, 0x0a]
    };
    assert(r@ =~= autostart_marker(i as int));
    r
}

pub(crate) fn rz_echo_marker_bytes(i: usize) -> (r: Vec<u8>)
    requires
        i < 6,
    ensures
        r@ == rz_echo_marker(i as int),
{
    let r: Vec<u8> = if i == 0 {
        vec![0x20, 0x72, 0x7a, 0x20, 0x2d, 0x71, 0x0d, 0x0a]
    } else if i == 1 {
        vec![0x20, 0x72, 0x7a, 0x20, 0x2d, 0x71, 0x0d]
    } else if i == 2 {
        vec![0x20, 0x72, 0x7a, 0x20, 0x2d, 0x71, 0x0a]
    } else if i == 3 {
        vec![0x20, 0x72, 0x7a, 0x0d, 0x0a]
    } else if i == 4 {
        vec![0x20, 0x72, 0x7a, 0x0d]
    } else {
        vec![0x20, 0x72, 0x7a, 0x0a]
    };
    assert(r@ =~= rz_echo_marker(i as int));
    r
}

/// `bytes` without a trailing `sz` autostart line, if one ends it.
pub fn strip_lrzsz_download_autostart_invocation(bytes: &[u8]) -> (r: &[u8])
    ensures
        r@ == match strip_first_suffix(bytes@, |i: int| autostart_marker(i), 0, 3) {
            Some(k) => bytes@.take(k),
            None => bytes@,
        },
{
    let mut i: usize = 0;
    while i < 3
        invariant
            i <= 3,
            strip_first_suffix(bytes@, |i: int| autostart_marker(i), 0, 3)
                == strip_first_suffix(bytes@, |i: int| autostart_marker(i), i as int, 3),
        decreases 3 - i,
    {
        let marker = autostart_marker_bytes(i);
        if ends_with_bytes(bytes, marker.as_slice()) {
            let r = vstd::slice::slice_subrange(bytes, 0, bytes.len() - marker.len());
            assert(r@ =~= bytes@.take(bytes@.len() - marker@.len()));
            return r;
        }
        i = i + 1;
    }
    bytes
}

/// Where an echo of this program's `rz` command starts, if one ends `bytes`.
pub fn automatic_rz_echo_start(bytes: &[u8]) -> (r: Option<usize>)
    ensures
        match r {
            Some(k) => strip_first_suffix(bytes@, |i: int| rz_echo_marker(i), 0, 6) == Some(k as int)
                && k <= bytes@.len(),
            None => strip_first_suffix(bytes@, |i: int| rz_echo_marker(i), 0, 6) is None,
        },
{
    let mut i: usize = 0;
    while i < 6
        invariant
            i <= 6,
            strip_first_suffix(bytes@, |i: int| rz_echo_marker(i), 0, 6)
                == strip_first_suffix(bytes@, |i: int| rz_echo_marker(i), i as int, 6),
        decreases 6 - i,
    {
        let marker = rz_echo_marker_bytes(i);
        if ends_with_bytes(bytes, marker.as_slice()) {
            return Some(bytes.len() - marker.len());
        }
        i = i + 1;
    }
    None
}

/// `bytes` without an echo of this program's `rz` command at its end.
pub fn strip_automatic_rz_echo(bytes: &[u8]) -> (r: &[u8])
    ensures
        r@ == match strip_first_suffix(bytes@, |i: int| rz_echo_marker(i), 0, 6) {
            Some(k) => bytes@.take(k),
            None => bytes@,
        },
{
    match automatic_rz_echo_start(bytes) {
        Some(k) => {
            let r = vstd::slice::slice_subrange(bytes, 0, k);
            assert(r@ =~= bytes@.take(k as int));
            r
        },
        None => bytes,
    }
}

} // verus!
