//! A ZMODEM transfer inside a shell session: where remote output goes (the
//! terminal, the running transfer, or the bytes `lrzsz` leaves behind after
//! one), the `zmodem2` engine that speaks the protocol, and the transfer
//! dialog. Local files are read and written by the caller, which `advance`
//! asks for each piece of such work and which reports the outcome back.

use vstd::prelude::*;
use crate::bytes::{copy_range, extend_range};
use crate::text::{cat, same_text};
use crate::zmodem_model::{
    tail_consume, PostSessionTail, PostSessionTailOutcome, PostSessionTailStage, WireSubmitError,
    ZmodemDownloadConflictPolicy, ZmodemTransferDirection, ZmodemTransferPhase, ZmodemTransferState,
};
use crate::bytes::utf8_lossy_text;
use crate::remote_paths::local_join_spec;
use crate::zmodem_model::safe_file_name;
use crate::zmodem_progress::{
    download_aborted, download_completed, download_running, same_start, sat_inc, size_before, upload_aborted,
    upload_completed, upload_running, upload_status_text, sat_add, DownloadEventError, UploadView,
    abort_wire, abort_wire_bytes, download_cancelled, failed_state, fail_state, lemma_total_size_take,
    receiver_candidate_path, total_size, transfer_was_active, upload_cancelled, DownloadProgress, DownloadStep, FileStart,
    FileStartDecision, FileStartRoute, UploadFile, UploadProgress, UploadStatus,
};
use crate::output_pump::{
    SynchronizedOutputBatcher, interactive_rz_upload_command_spec, start_interactive_upload, InteractiveUploadError, PendingInteractiveZmodemUpload,
};
use crate::zmodem_scan::{initial_transfer_state, is_initial_state, scan_held, ScanOutcome, ScanState, ZmodemPrefixScanner};

verus! {

// ---------------------------------------------------------------------------
// The protocol engine
// ---------------------------------------------------------------------------

#[verifier::external_type_specification]
#[verifier::external_body]
pub struct ExZmodemSender(zmodem2::Sender);

#[verifier::external_type_specification]
#[verifier::external_body]
pub struct ExZmodemReceiver(zmodem2::Receiver);

/// What an engine asks for next, as plain values.
#[derive(Debug, Clone, PartialEq, Eq)]
pub enum EngineAction {
    /// Send these bytes to the remote side, then report how many went out.
    WriteWire(Vec<u8>),
    /// Read at most `max_len` bytes of the current file at `offset`.
    ReadFile { offset: u32, max_len: usize },
    /// Store these received bytes of the current file.
    WriteFile(Vec<u8>),
    /// The remote side announced a file.
    FileStarted { name: Vec<u8>, size: Option<u32> },
    FileCompleted,
    SessionCompleted,
    Aborted,
    /// Another protocol event, which needs nothing from this side.
    OtherEvent,
    /// Nothing to do until more remote bytes arrive.
    Idle,
}

/// `zmodem2::Sender::new`: a sender that has queued its greeting. Its error,
/// in the words of its `Display`, is passed on; when it fails is not stated.
#[verifier::external_body]
fn sender_new() -> (r: Result<zmodem2::Sender, WireSubmitError>) {
    zmodem2::Sender::new().map_err(|e| WireSubmitError { message: format!("{e}") })
}

/// `zmodem2::Receiver::new`: a receiver that has queued its greeting. Its
/// error, in the words of its `Display`, is passed on; when it fails is not
/// stated.
#[verifier::external_body]
fn receiver_new() -> (r: Result<zmodem2::Receiver, WireSubmitError>) {
    zmodem2::Receiver::new().map_err(|e| WireSubmitError { message: format!("{e}") })
}

/// `zmodem2::Sender::submit_wire`: the engine reads remote bytes from the
/// front of `bytes` and says how many it took, never more than it was given
/// (it counts what it read from the slice). Which count, and when it refuses,
/// depends on the engine's own state and is not stated.
#[verifier::external_body]
fn sender_submit_wire(engine: &mut zmodem2::Sender, bytes: &[u8]) -> (r: Result<usize, WireSubmitError>)
    ensures
        r matches Ok(n) ==> n <= bytes@.len(),
{
    engine.submit_wire(bytes).map_err(|e| WireSubmitError { message: format!("{e}") })
}

/// `zmodem2::Receiver::submit_wire`, as `sender_submit_wire` for the sender.
#[verifier::external_body]
fn receiver_submit_wire(engine: &mut zmodem2::Receiver, bytes: &[u8]) -> (r: Result<usize, WireSubmitError>)
    ensures
        r matches Ok(n) ==> n <= bytes@.len(),
{
    engine.submit_wire(bytes).map_err(|e| WireSubmitError { message: format!("{e}") })
}

/// `zmodem2::Sender::wire_written`: `n` bytes of the last `WriteWire` went out.
#[verifier::external_body]
fn sender_wire_written(engine: &mut zmodem2::Sender, n: usize) {
    engine.wire_written(n)
}

/// `zmodem2::Receiver::wire_written`: `n` bytes of the last `WriteWire` went out.
#[verifier::external_body]
fn receiver_wire_written(engine: &mut zmodem2::Receiver, n: usize) {
    engine.wire_written(n)
}

/// `zmodem2::Sender::abort`: the engine drops what it had queued and queues
/// the cancel sequence.
#[verifier::external_body]
fn sender_abort(engine: &mut zmodem2::Sender) {
    engine.abort()
}

/// `zmodem2::Receiver::abort`, whose error (a full event queue) is passed on.
#[verifier::external_body]
fn receiver_abort(engine: &mut zmodem2::Receiver) -> (r: Result<(), WireSubmitError>) {
    engine.abort().map_err(|e| WireSubmitError { message: format!("{e}") })
}

/// `zmodem2::Sender::poll`, the action copied out as an `EngineAction`: the
/// variant it names, with its bytes, offset, length or file details. Which
/// action comes depends on the engine's state and is not stated.
#[verifier::external_body]
fn sender_poll(engine: &mut zmodem2::Sender) -> (r: EngineAction) {
    match engine.poll() {
        zmodem2::Action::WriteWire(b) => EngineAction::WriteWire(b.to_vec()),
        zmodem2::Action::ReadFile { offset, max_len } => EngineAction::ReadFile { offset: offset.get(), max_len },
        zmodem2::Action::Event(zmodem2::Event::FileCompleted) => EngineAction::FileCompleted,
        zmodem2::Action::Event(zmodem2::Event::SessionCompleted) => EngineAction::SessionCompleted,
        zmodem2::Action::Event(zmodem2::Event::Aborted) => EngineAction::Aborted,
        zmodem2::Action::Event(_) => EngineAction::OtherEvent,
        _ => EngineAction::Idle,
    }
}

/// `zmodem2::Receiver::poll`, the action copied out as an `EngineAction`, as
/// for the sender.
#[verifier::external_body]
fn receiver_poll(engine: &mut zmodem2::Receiver) -> (r: EngineAction) {
    match engine.poll() {
        zmodem2::Action::WriteWire(b) => EngineAction::WriteWire(b.to_vec()),
        zmodem2::Action::WriteFile(b) => EngineAction::WriteFile(b.to_vec()),
        zmodem2::Action::Event(zmodem2::Event::FileStarted(i)) =>
            EngineAction::FileStarted { name: i.name.to_vec(), size: i.size.map(|s| s.get()) },
        zmodem2::Action::Event(zmodem2::Event::FileCompleted) => EngineAction::FileCompleted,
        zmodem2::Action::Event(zmodem2::Event::SessionCompleted) => EngineAction::SessionCompleted,
        zmodem2::Action::Event(zmodem2::Event::Aborted) => EngineAction::Aborted,
        zmodem2::Action::Event(_) => EngineAction::OtherEvent,
        _ => EngineAction::Idle,
    }
}

/// `zmodem2::Sender::start_file` with `FileInfo::new(name, Some(size))`, the
/// name as its UTF-8 bytes.
#[verifier::external_body]
fn sender_start_file(engine: &mut zmodem2::Sender, name: &str, size: u32) -> (r: Result<(), WireSubmitError>) {
    let info = zmodem2::FileInfo::new(name.as_bytes(), Some(zmodem2::Position::new(size)));
    engine.start_file(info).map_err(|e| WireSubmitError { message: format!("{e}") })
}

/// `zmodem2::Sender::finish`: end the session after the current file.
#[verifier::external_body]
fn sender_finish(engine: &mut zmodem2::Sender) -> (r: Result<(), WireSubmitError>) {
    engine.finish().map_err(|e| WireSubmitError { message: format!("{e}") })
}

/// `zmodem2::Sender::submit_file`: file bytes for the pending `ReadFile`.
#[verifier::external_body]
fn sender_submit_file(engine: &mut zmodem2::Sender, data: &[u8]) -> (r: Result<(), WireSubmitError>) {
    engine.submit_file(data).map_err(|e| WireSubmitError { message: format!("{e}") })
}

/// `zmodem2::Receiver::file_written`: `n` bytes of the last `WriteFile` are stored.
#[verifier::external_body]
fn receiver_file_written(engine: &mut zmodem2::Receiver, n: usize) -> (r: Result<(), WireSubmitError>) {
    engine.file_written(n).map_err(|e| WireSubmitError { message: format!("{e}") })
}

/// Offers the pending bytes to the sender until it takes none or all are
/// taken. On success, what it took (the ghost part of the result) followed by
/// what is still pending is what was pending before.
fn feed_sender(engine: &mut zmodem2::Sender, pending_wire: &mut Vec<u8>) -> (r: (Result<(), WireSubmitError>, Ghost<Seq<u8>>))
    ensures
        r.0 is Ok ==> r.1@ + final(pending_wire)@ == old(pending_wire)@,
{
    let n = pending_wire.len();
    let mut done: usize = 0;
    while done < n
        invariant
            n == pending_wire@.len(),
            done <= n,
            pending_wire@ == old(pending_wire)@,
        ensures
            n == pending_wire@.len(),
            done <= n,
            pending_wire@ == old(pending_wire)@,
        decreases n - done,
    {
        let chunk = vstd::slice::slice_subrange(pending_wire.as_slice(), done, n);
        let taken = match sender_submit_wire(engine, chunk) {
            Ok(k) => k,
            Err(e) => {
                return (Err(e), Ghost(Seq::empty()));
            },
        };
        if taken == 0 {
            break;
        }
        done = done + taken;
    }
    let rest = copy_range(pending_wire.as_slice(), done, n);
    let ghost took = old(pending_wire)@.take(done as int);
    assert(took + rest@ =~= old(pending_wire)@);
    *pending_wire = rest;
    (Ok(()), Ghost(took))
}

/// `feed_sender` for the receiver.
fn feed_receiver(engine: &mut zmodem2::Receiver, pending_wire: &mut Vec<u8>) -> (r: (Result<(), WireSubmitError>, Ghost<Seq<u8>>))
    ensures
        r.0 is Ok ==> r.1@ + final(pending_wire)@ == old(pending_wire)@,
{
    let n = pending_wire.len();
    let mut done: usize = 0;
    while done < n
        invariant
            n == pending_wire@.len(),
            done <= n,
            pending_wire@ == old(pending_wire)@,
        ensures
            n == pending_wire@.len(),
            done <= n,
            pending_wire@ == old(pending_wire)@,
        decreases n - done,
    {
        let chunk = vstd::slice::slice_subrange(pending_wire.as_slice(), done, n);
        let taken = match receiver_submit_wire(engine, chunk) {
            Ok(k) => k,
            Err(e) => {
                return (Err(e), Ghost(Seq::empty()));
            },
        };
        if taken == 0 {
            break;
        }
        done = done + taken;
    }
    let rest = copy_range(pending_wire.as_slice(), done, n);
    let ghost took = old(pending_wire)@.take(done as int);
    assert(took + rest@ =~= old(pending_wire)@);
    *pending_wire = rest;
    (Ok(()), Ghost(took))
}


// ---------------------------------------------------------------------------
// A running transfer
// ---------------------------------------------------------------------------

#[allow(inconsistent_fields)]
/// A transfer under way: the engine, the remote bytes it has not taken yet,
/// and what the dialog shows. `taken` is every remote byte the engine has
/// taken so far.
pub enum ZmodemSession {
    /// The remote shell runs `rz`: this side sends.
    Sender { engine: zmodem2::Sender, pending_wire: Vec<u8>, taken: Ghost<Seq<u8>>, progress: UploadProgress },
    /// The remote shell runs `sz`: this side receives.
    Receiver { engine: zmodem2::Receiver, pending_wire: Vec<u8>, taken: Ghost<Seq<u8>>, progress: DownloadProgress },
}

impl ZmodemSession {
    pub open spec fn direction_spec(&self) -> ZmodemTransferDirection {
        match self {
            ZmodemSession::Sender { .. } => ZmodemTransferDirection::Upload,
            ZmodemSession::Receiver { .. } => ZmodemTransferDirection::Download,
        }
    }

    /// The remote bytes not yet taken by the engine.
    pub open spec fn pending(&self) -> Seq<u8> {
        match self {
            ZmodemSession::Sender { pending_wire, .. } => pending_wire@,
            ZmodemSession::Receiver { pending_wire, .. } => pending_wire@,
        }
    }

    /// Every remote byte routed to this transfer: what the engine took, then
    /// what waits for it.
    pub open spec fn wire(&self) -> Seq<u8> {
        match self {
            ZmodemSession::Sender { pending_wire, taken, .. } => taken@ + pending_wire@,
            ZmodemSession::Receiver { pending_wire, taken, .. } => taken@ + pending_wire@,
        }
    }

    /// What the dialog shows of this transfer.
    pub open spec fn shown(&self) -> ZmodemTransferState {
        match self {
            ZmodemSession::Sender { progress, .. } => progress@.state,
            ZmodemSession::Receiver { progress, .. } => progress.state,
        }
    }

    pub open spec fn finished_spec(&self) -> bool {
        match self {
            ZmodemSession::Sender { progress, .. } => progress@.finished,
            ZmodemSession::Receiver { progress, .. } => progress.finished,
        }
    }

    /// `other` is this transfer with the same progress, in the same
    /// direction (the engine and the bytes aside).
    pub open spec fn same_progress(&self, other: ZmodemSession) -> bool {
        match (self, other) {
            (ZmodemSession::Sender { progress: a, .. }, ZmodemSession::Sender { progress: b, .. }) => a@ == b@,
            (ZmodemSession::Receiver { progress: a, .. }, ZmodemSession::Receiver { progress: b, .. }) => *a == b,
            _ => false,
        }
    }

    /// A transfer in `direction` that has just begun: nothing routed to it
    /// yet, and the dialog waits for the user.
    pub open spec fn is_fresh(&self, direction: ZmodemTransferDirection) -> bool {
        &&& self.direction_spec() == direction
        &&& self.wire().len() == 0
        &&& self.pending().len() == 0
        &&& !self.finished_spec()
        &&& is_initial_state(self.shown(), direction)
    }

    /// A fresh engine for a transfer in `direction`, or the engine's error
    /// when it cannot be made.
    pub fn new(direction: ZmodemTransferDirection) -> (r: Result<ZmodemSession, WireSubmitError>)
        ensures
            r matches Ok(s) ==> s.is_fresh(direction),
    {
        match direction {
            ZmodemTransferDirection::Upload => match sender_new() {
                Ok(engine) => Ok(ZmodemSession::Sender {
                    engine,
                    pending_wire: Vec::new(),
                    taken: Ghost(Seq::empty()),
                    progress: UploadProgress::new(),
                }),
                Err(e) => Err(e),
            },
            ZmodemTransferDirection::Download => match receiver_new() {
                Ok(engine) => Ok(ZmodemSession::Receiver {
                    engine,
                    pending_wire: Vec::new(),
                    taken: Ghost(Seq::empty()),
                    progress: DownloadProgress::new(),
                }),
                Err(e) => Err(e),
            },
        }
    }

    pub fn direction(&self) -> (r: ZmodemTransferDirection)
        ensures
            r == self.direction_spec(),
    {
        match self {
            ZmodemSession::Sender { .. } => ZmodemTransferDirection::Upload,
            ZmodemSession::Receiver { .. } => ZmodemTransferDirection::Download,
        }
    }

    pub fn state(&self) -> (r: &ZmodemTransferState)
        ensures
            *r == self.shown(),
    {
        match self {
            ZmodemSession::Sender { progress, .. } => progress.state(),
            ZmodemSession::Receiver { progress, .. } => &progress.state,
        }
    }

    pub fn is_finished(&self) -> (r: bool)
        ensures
            r == self.finished_spec(),
    {
        match self {
            ZmodemSession::Sender { progress, .. } => progress.is_finished(),
            ZmodemSession::Receiver { progress, .. } => progress.finished,
        }
    }

    /// Offers the waiting remote bytes to the engine. On success none is
    /// lost: the bytes routed to the transfer stay what they were.
    fn feed(&mut self) -> (r: Result<(), WireSubmitError>)
        ensures
            final(self).same_progress(*old(self)),
            r is Ok ==> final(self).wire() == old(self).wire(),
    {
        match self {
            ZmodemSession::Sender { engine, pending_wire, taken, progress } => {
                let (r, got) = feed_sender(engine, pending_wire);
                proof {
                    assert(taken@ + got@ + pending_wire@ =~= taken@ + (got@ + pending_wire@));
                }
                *taken = Ghost(taken@ + got@);
                r
            },
            ZmodemSession::Receiver { engine, pending_wire, taken, progress } => {
                let (r, got) = feed_receiver(engine, pending_wire);
                proof {
                    assert(taken@ + got@ + pending_wire@ =~= taken@ + (got@ + pending_wire@));
                }
                *taken = Ghost(taken@ + got@);
                r
            },
        }
    }

    /// Routes remote bytes to the transfer and offers them to the engine.
    pub fn submit_wire(&mut self, bytes: &[u8]) -> (r: Result<(), WireSubmitError>)
        ensures
            final(self).same_progress(*old(self)),
            r is Ok ==> final(self).wire() == old(self).wire() + bytes@,
    {
        match self {
            ZmodemSession::Sender { pending_wire, .. } => extend_range(pending_wire, bytes, 0, bytes.len()),
            ZmodemSession::Receiver { pending_wire, .. } => extend_range(pending_wire, bytes, 0, bytes.len()),
        }
        assert(bytes@.subrange(0, bytes@.len() as int) =~= bytes@);
        assert(self.wire() =~= old(self).wire() + bytes@);
        self.feed()
    }

    /// Hands back the bytes the engine never took.
    pub fn take_pending_wire(&mut self) -> (r: Vec<u8>)
        ensures
            r@ == old(self).pending(),
            final(self).pending().len() == 0,
            final(self).same_progress(*old(self)),
    {
        match self {
            ZmodemSession::Sender { pending_wire, .. } => {
                let mut out: Vec<u8> = Vec::new();
                std::mem::swap(&mut out, pending_wire);
                out
            },
            ZmodemSession::Receiver { pending_wire, .. } => {
                let mut out: Vec<u8> = Vec::new();
                std::mem::swap(&mut out, pending_wire);
                out
            },
        }
    }

    /// `n` bytes of what the engine asked to send went out.
    pub fn wire_written(&mut self, n: usize)
        ensures
            final(self).same_progress(*old(self)),
            final(self).wire() == old(self).wire(),
    {
        match self {
            ZmodemSession::Sender { engine, .. } => sender_wire_written(engine, n),
            ZmodemSession::Receiver { engine, .. } => receiver_wire_written(engine, n),
        }
    }
}

/// What the caller does after one step of a transfer.
#[derive(Debug, Clone, PartialEq, Eq)]
pub enum ZmodemStep {
    /// Send these bytes to the remote side, then report them with `note_wire_written`.
    WriteWire(Vec<u8>),
    /// Step again.
    Continue,
    /// Wait for remote bytes or the user.
    Idle,
    /// Read at most `max_len` bytes of the open upload file at `offset`, and
    /// hand them to `file_data_read`.
    ReadFile { offset: u64, max_len: usize },
    /// Open this file for upload, then call `upload_file_opened` with `status`.
    OpenUploadFile { path: String, status: UploadStatus },
    /// Append these bytes to the open download file, then call `file_data_written`.
    WriteFile(Vec<u8>),
    /// Create the announced file at `candidate` (or beside it, as `policy`
    /// says when a file is there), then call `download_file_opened`.
    OpenDownloadFile { start: FileStart, candidate: String, policy: ZmodemDownloadConflictPolicy },
}

/// Tells the sender about the file to send now, and gives its path; or why
/// it cannot be sent.
fn start_current_upload_file(engine: &mut zmodem2::Sender, progress: &UploadProgress) -> (r: Result<String, String>)
    ensures
        progress@.current_index >= progress@.files.len() ==> (r matches Err(m) && m@ == "no current zmodem upload file"@),
        progress@.current_index < progress@.files.len() && progress@.files[progress@.current_index as int].size_bytes > 0xffff_ffff
            ==> (r matches Err(m) && m@ == "file exceeds ZMODEM size limit"@),
        r matches Ok(path) ==> progress@.current_index < progress@.files.len()
            && path@ == progress@.files[progress@.current_index as int].path@,
{
    match progress.current_file() {
        None => Err(String::from_str("no current zmodem upload file")),
        Some(file) => {
            if file.size_bytes > 0xffff_ffff {
                return Err(String::from_str("file exceeds ZMODEM size limit"));
            }
            match sender_start_file(engine, file.display_name.as_str(), file.size_bytes as u32) {
                Ok(()) => Ok(file.path.clone()),
                Err(e) => Err(e.message),
            }
        },
    }
}

// ---------------------------------------------------------------------------
// What one engine action does
// ---------------------------------------------------------------------------

/// What is left to do after an upload took in an engine action: nothing but
/// the step, telling the engine about the next file, or telling it to finish.
#[derive(Debug, Clone, PartialEq, Eq)]
pub enum UploadFollowUp {
    Step(ZmodemStep),
    StartNextFile,
    Finish,
}

/// `w` is `v` after the engine went idle: a session whose end was reported
/// is complete now.
pub open spec fn upload_idle_effect(v: UploadView, w: UploadView) -> bool {
    &&& v.session_complete_pending ==> upload_completed(w.state, v.state, v)
        && w == (UploadView { session_complete_pending: false, finished: true, state: w.state, ..v })
    &&& !v.session_complete_pending ==> w == v
}

/// How an upload `v` takes in `action`: `w` is its progress afterwards, `r`
/// what is left to do.
pub open spec fn upload_action_effect(v: UploadView, w: UploadView, action: EngineAction, r: UploadFollowUp) -> bool {
    match action {
        EngineAction::WriteWire(b) => r == UploadFollowUp::Step(ZmodemStep::WriteWire(b)) && w == v,
        EngineAction::ReadFile { offset, max_len } => r == UploadFollowUp::Step(ZmodemStep::ReadFile {
            offset: offset as u64,
            max_len: if max_len == 0 { 1 } else { max_len },
        }) && w == v,
        EngineAction::FileCompleted => {
            let next: nat = if v.current_index < usize::MAX { v.current_index + 1 } else { v.current_index };
            &&& w == (UploadView { current_index: next, bytes_transferred: size_before(v.files, next as int), ..v })
            &&& r == (if next < v.files.len() { UploadFollowUp::StartNextFile } else { UploadFollowUp::Finish })
        },
        EngineAction::SessionCompleted => r == UploadFollowUp::Step(ZmodemStep::Continue)
            && w == (UploadView { session_complete_pending: true, ..v }),
        EngineAction::Aborted => r == UploadFollowUp::Step(ZmodemStep::Continue) && upload_aborted(w.state, v.state)
            && w == (UploadView { finished: true, state: w.state, ..v }),
        EngineAction::OtherEvent => r == UploadFollowUp::Step(ZmodemStep::Continue) && w == v,
        EngineAction::FileStarted { .. } => r == UploadFollowUp::Step(ZmodemStep::Continue) && w == v,
        _ => r == UploadFollowUp::Step(ZmodemStep::Idle) && upload_idle_effect(v, w),
    }
}

/// The upload takes in `action`, which its engine asked for.
pub fn upload_on_action(progress: &mut UploadProgress, action: EngineAction) -> (r: UploadFollowUp)
    ensures
        upload_action_effect(old(progress)@, final(progress)@, action, r),
{
    match action {
        EngineAction::WriteWire(bytes) => UploadFollowUp::Step(ZmodemStep::WriteWire(bytes)),
        EngineAction::ReadFile { offset, max_len } => UploadFollowUp::Step(ZmodemStep::ReadFile {
            offset: offset as u64,
            max_len: if max_len == 0 { 1 } else { max_len },
        }),
        EngineAction::FileCompleted => {
            if progress.file_completed() {
                UploadFollowUp::StartNextFile
            } else {
                UploadFollowUp::Finish
            }
        },
        EngineAction::SessionCompleted => {
            progress.session_completed();
            UploadFollowUp::Step(ZmodemStep::Continue)
        },
        EngineAction::Aborted => {
            progress.aborted();
            UploadFollowUp::Step(ZmodemStep::Continue)
        },
        EngineAction::OtherEvent => UploadFollowUp::Step(ZmodemStep::Continue),
        EngineAction::FileStarted { .. } => UploadFollowUp::Step(ZmodemStep::Continue),
        _ => {
            progress.went_idle();
            UploadFollowUp::Step(ZmodemStep::Idle)
        },
    }
}

/// `w` and `r` are what follows from `f` for the upload `mid`: the engine is
/// told about the next file (whose path is to be opened) or to finish (the
/// dialog then says so); either may be refused with the engine's error.
pub open spec fn upload_follow_up_done(mid: UploadView, w: UploadView, f: UploadFollowUp, r: Result<ZmodemStep, String>) -> bool {
    match f {
        UploadFollowUp::Step(s) => r == Ok::<ZmodemStep, String>(s) && w == mid,
        UploadFollowUp::StartNextFile => {
            &&& w == mid
            &&& mid.files[mid.current_index as int].size_bytes > 0xffff_ffff
                ==> (r matches Err(m) && m@ == "file exceeds ZMODEM size limit"@)
            &&& r matches Ok(s) ==> (s matches ZmodemStep::OpenUploadFile { path, status } && status == UploadStatus::Uploading
                && path@ == mid.files[mid.current_index as int].path@)
        },
        UploadFollowUp::Finish => {
            ||| r == Ok::<ZmodemStep, String>(ZmodemStep::Continue)
                && upload_running(w.state, mid.state, mid, "Finalizing upload"@)
                && w == (UploadView { state: w.state, ..mid })
            ||| r is Err && w == mid
        },
    }
}

/// One step of a running upload `a`, whatever the engine answered: a refusal
/// of the waiting bytes changes nothing; else some action came, and the
/// progress `b` and result `r` are what it gives.
pub open spec fn upload_stepped(a: UploadView, b: UploadView, r: Result<ZmodemStep, String>) -> bool {
    ||| r is Err && b == a
    ||| exists|action: EngineAction, mid: UploadView, f: UploadFollowUp|
        #[trigger] upload_action_effect(a, mid, action, f) && upload_follow_up_done(mid, b, f, r)
}

/// What an announced file leads to in the download `p`: nothing for a
/// repeat, an error when it cannot be followed, else creating it at the
/// candidate path in the picked folder.
pub open spec fn file_start_effect(p: DownloadProgress, start: FileStart, r: Result<ZmodemStep, String>) -> bool {
    let repeat_of_last = same_start(p.last_completed_file_wire_name, p.last_completed_file_size, start)
        && p.files_completed == p.files_started;
    &&& p.file_open && same_start(p.current_file_wire_name, p.current_file_size, start)
        ==> r == Ok::<ZmodemStep, String>(ZmodemStep::Continue)
    &&& p.file_open && !same_start(p.current_file_wire_name, p.current_file_size, start)
        ==> (r matches Err(m) && m@ == DownloadEventError::NewFileBeforeCompletion.message_spec())
    &&& !p.file_open && repeat_of_last ==> r == Ok::<ZmodemStep, String>(ZmodemStep::Continue)
    &&& !p.file_open && !repeat_of_last && p.target_dir is None
        ==> (r matches Err(m) && m@ == DownloadEventError::NoTargetDirectory.message_spec())
    &&& !p.file_open && !repeat_of_last && p.target_dir is Some ==> (r matches Ok(ZmodemStep::OpenDownloadFile { start: s, candidate, policy })
        && s == start && policy == p.conflict_policy
        && candidate@ == local_join_spec(p.target_dir->0@, safe_file_name(utf8_lossy_text(start.name@))))
}

/// What to do with an announced file: nothing for a repeat, an error when it
/// cannot be followed, else create it where the download goes.
fn download_file_step(progress: &DownloadProgress, start: FileStart) -> (r: Result<ZmodemStep, String>)
    ensures
        file_start_effect(*progress, start, r),
{
    match progress.classify_file_start(&start) {
        Err(e) => Err(String::from_str(e.message())),
        Ok(FileStartDecision::IgnoreDuplicate) => Ok(ZmodemStep::Continue),
        Ok(FileStartDecision::Open { target_dir }) => {
            let candidate = receiver_candidate_path(target_dir.as_str(), start.name.as_slice());
            Ok(ZmodemStep::OpenDownloadFile { start, candidate, policy: progress.conflict_policy })
        },
    }
}

/// `b` is `a` after its current file completed.
pub open spec fn download_file_completed_effect(a: DownloadProgress, b: DownloadProgress) -> bool {
    &&& b.completed_local_paths@ == (match a.current_target_path {
        Some(p) => a.completed_local_paths@.push(p),
        None => a.completed_local_paths@,
    })
    &&& b.current_file_name@.len() == 0
    &&& ({
        let mid = DownloadProgress {
            file_open: false,
            current_target_path: None,
            completed_local_paths: b.completed_local_paths,
            last_completed_file_wire_name: a.current_file_wire_name,
            current_file_wire_name: None,
            last_completed_file_size: a.current_file_size,
            current_file_name: b.current_file_name,
            current_file_size: None,
            files_completed: sat_inc(a.files_completed),
            ..a
        };
        &&& download_running(b.state, a.state, mid, "Waiting for next file"@)
        &&& b == (DownloadProgress { state: b.state, ..mid })
    })
}

/// `b` is `a` after the engine went idle.
pub open spec fn download_idle_effect(a: DownloadProgress, b: DownloadProgress) -> bool {
    &&& a.session_complete_pending ==> download_completed(b.state, a.state, a)
        && b == (DownloadProgress { session_complete_pending: false, finished: true, state: b.state, ..a })
    &&& !a.session_complete_pending ==> b == a
}

pub open spec fn file_start_of(name: Vec<u8>, size: Option<u32>) -> FileStart {
    FileStart {
        name,
        size: match size {
            Some(n) => Some(n as u64),
            None => None,
        },
    }
}

/// How a download `a` takes in `action`: `b` is its progress afterwards,
/// `r` the step (or the error that ends the transfer).
pub open spec fn download_action_effect(a: DownloadProgress, b: DownloadProgress, action: EngineAction, r: Result<ZmodemStep, String>) -> bool {
    match action {
        EngineAction::WriteWire(x) => r == Ok::<ZmodemStep, String>(ZmodemStep::WriteWire(x)) && b == a,
        EngineAction::WriteFile(x) => {
            &&& b == a
            &&& a.file_open ==> r == Ok::<ZmodemStep, String>(ZmodemStep::WriteFile(x))
            &&& !a.file_open ==> (r matches Err(m) && m@ == "zmodem receiver requested file writes without a file"@)
        },
        EngineAction::FileStarted { name, size } => {
            let start = file_start_of(name, size);
            &&& a.target_dir is None && a.cancel_requested ==> r == Ok::<ZmodemStep, String>(ZmodemStep::Continue) && b == a
            &&& a.target_dir is None && !a.cancel_requested ==> r == Ok::<ZmodemStep, String>(ZmodemStep::Idle)
                && b == (DownloadProgress { deferred_file_start: Some(start), ..a })
            &&& a.target_dir is Some ==> b == a && file_start_effect(a, start, r)
        },
        EngineAction::FileCompleted => r == Ok::<ZmodemStep, String>(ZmodemStep::Continue) && download_file_completed_effect(a, b),
        EngineAction::SessionCompleted => r == Ok::<ZmodemStep, String>(ZmodemStep::Continue)
            && b == (DownloadProgress { cancel_requested: false, session_complete_pending: true, ..a }),
        EngineAction::Aborted => r == Ok::<ZmodemStep, String>(ZmodemStep::Continue) && download_aborted(b.state, a.state)
            && b == (DownloadProgress { cancel_requested: false, finished: true, state: b.state, ..a }),
        EngineAction::OtherEvent => r == Ok::<ZmodemStep, String>(ZmodemStep::Continue) && b == a,
        _ => r == Ok::<ZmodemStep, String>(ZmodemStep::Idle) && download_idle_effect(a, b),
    }
}

/// The download takes in `action`, which its engine asked for.
pub fn download_on_action(progress: &mut DownloadProgress, action: EngineAction) -> (r: Result<ZmodemStep, String>)
    ensures
        download_action_effect(*old(progress), *final(progress), action, r),
{
    match action {
        EngineAction::WriteWire(bytes) => Ok(ZmodemStep::WriteWire(bytes)),
        EngineAction::WriteFile(bytes) => {
            if progress.file_open {
                Ok(ZmodemStep::WriteFile(bytes))
            } else {
                Err(String::from_str("zmodem receiver requested file writes without a file"))
            }
        },
        EngineAction::FileStarted { name, size } => {
            let size = match size {
                Some(n) => Some(n as u64),
                None => None,
            };
            match progress.route_file_start(FileStart { name, size }) {
                FileStartRoute::Drop => Ok(ZmodemStep::Continue),
                FileStartRoute::Deferred => Ok(ZmodemStep::Idle),
                FileStartRoute::Handle(start) => download_file_step(progress, start),
            }
        },
        EngineAction::FileCompleted => {
            progress.file_completed();
            Ok(ZmodemStep::Continue)
        },
        EngineAction::SessionCompleted => {
            progress.session_completed();
            Ok(ZmodemStep::Continue)
        },
        EngineAction::Aborted => {
            progress.aborted();
            Ok(ZmodemStep::Continue)
        },
        EngineAction::OtherEvent => Ok(ZmodemStep::Continue),
        _ => {
            progress.went_idle();
            Ok(ZmodemStep::Idle)
        },
    }
}

/// One step of a running download `a`, whatever the engine answered: an
/// announcement held back until a folder was picked is handled first (or
/// keeps waiting); else a refusal of the waiting bytes changes nothing, or
/// some action came and `b` and `r` are what it gives.
pub open spec fn download_stepped(a: DownloadProgress, b: DownloadProgress, r: Result<ZmodemStep, String>) -> bool {
    if a.finished {
        r == Ok::<ZmodemStep, String>(ZmodemStep::Idle) && b == a
    } else if a.deferred_file_start is Some {
        if a.target_dir is None && !a.cancel_requested {
            r == Ok::<ZmodemStep, String>(ZmodemStep::Idle) && b == a
        } else {
            b == (DownloadProgress { deferred_file_start: None, ..a }) && file_start_effect(b, a.deferred_file_start->0, r)
        }
    } else {
        ||| r is Err && b == a
        ||| exists|action: EngineAction| #[trigger] download_action_effect(a, b, action, r)
    }
}

/// `t` and `r` are what one step of the transfer `s` gives: see
/// `upload_stepped` and `download_stepped`. A finished transfer does
/// nothing, and unless the step failed no remote byte was lost.
pub open spec fn stepped(s: ZmodemSession, t: ZmodemSession, r: Result<ZmodemStep, String>) -> bool {
    &&& s.finished_spec() ==> r == Ok::<ZmodemStep, String>(ZmodemStep::Idle) && t == s
    &&& r is Ok ==> t.wire() == s.wire()
    &&& match (s, t) {
        (ZmodemSession::Sender { progress: a, .. }, ZmodemSession::Sender { progress: b, .. }) =>
            !a@.finished ==> upload_stepped(a@, b@, r),
        (ZmodemSession::Receiver { progress: a, .. }, ZmodemSession::Receiver { progress: b, .. }) => download_stepped(a, b, r),
        _ => false,
    }
}

impl ZmodemSession {
    /// One step of the transfer: the engine is offered the waiting remote
    /// bytes and asked what comes next (see `stepped`).
    pub fn step(&mut self) -> (r: Result<ZmodemStep, String>)
        ensures
            stepped(*old(self), *final(self), r),
    {
        match self {
            ZmodemSession::Sender { engine, pending_wire, taken, progress } => {
                if progress.is_finished() {
                    return Ok(ZmodemStep::Idle);
                }
                let ghost a = progress@;
                let (fed, got) = feed_sender(engine, pending_wire);
                proof {
                    if fed is Ok {
                        assert(taken@ + got@ + pending_wire@ =~= taken@ + (got@ + pending_wire@));
                    }
                }
                *taken = Ghost(taken@ + got@);
                match fed {
                    Ok(()) => {},
                    Err(e) => {
                        return Err(e.message);
                    },
                }
                let action = sender_poll(engine);
                let ghost act = action;
                let follow = upload_on_action(progress, action);
                let ghost mid = progress@;
                let ghost f = follow;
                let r = match follow {
                    UploadFollowUp::Step(s) => Ok(s),
                    UploadFollowUp::StartNextFile => match start_current_upload_file(engine, progress) {
                        Ok(path) => Ok(ZmodemStep::OpenUploadFile { path, status: UploadStatus::Uploading }),
                        Err(m) => Err(m),
                    },
                    UploadFollowUp::Finish => match sender_finish(engine) {
                        Ok(()) => {
                            progress.sync_running_state(UploadStatus::Finalizing);
                            Ok(ZmodemStep::Continue)
                        },
                        Err(e) => Err(e.message),
                    },
                };
                proof {
                    reveal_strlit("Finalizing upload");
                    assert(upload_action_effect(a, mid, act, f) && upload_follow_up_done(mid, progress@, f, r));
                }
                r
            },
            ZmodemSession::Receiver { engine, pending_wire, taken, progress } => {
                match progress.before_poll() {
                    DownloadStep::Idle => {
                        return Ok(ZmodemStep::Idle);
                    },
                    DownloadStep::Deferred(start) => {
                        return download_file_step(progress, start);
                    },
                    DownloadStep::Poll => {},
                }
                let ghost a = *progress;
                let (fed, got) = feed_receiver(engine, pending_wire);
                proof {
                    if fed is Ok {
                        assert(taken@ + got@ + pending_wire@ =~= taken@ + (got@ + pending_wire@));
                    }
                }
                *taken = Ghost(taken@ + got@);
                match fed {
                    Ok(()) => {},
                    Err(e) => {
                        return Err(e.message);
                    },
                }
                let action = receiver_poll(engine);
                let ghost act = action;
                let r = download_on_action(progress, action);
                assert(download_action_effect(a, *progress, act, r));
                r
            },
        }
    }

    /// The user cancelled: the engine is told to abort, the waiting remote
    /// bytes are dropped, and the dialog says how far the transfer got.
    pub fn cancel(&mut self)
        ensures
            final(self).direction_spec() == old(self).direction_spec(),
            final(self).pending().len() == 0,
            final(self).finished_spec(),
            match (*old(self), *final(self)) {
                (ZmodemSession::Sender { progress: a, .. }, ZmodemSession::Sender { progress: b, .. }) =>
                    upload_cancelled(b@.state, a@.state, a@),
                (ZmodemSession::Receiver { progress: a, .. }, ZmodemSession::Receiver { progress: b, .. }) =>
                    download_cancelled(b.state, a.state, a),
                _ => false,
            },
    {
        match self {
            ZmodemSession::Sender { engine, pending_wire, progress, .. } => {
                sender_abort(engine);
                *pending_wire = Vec::new();
                progress.cancel();
            },
            ZmodemSession::Receiver { engine, pending_wire, progress, .. } => {
                *pending_wire = Vec::new();
                let _ = receiver_abort(engine);
                progress.cancel();
            },
        }
    }
}

/// Whether the files' sizes add up to a count of bytes that fits in 64 bits,
/// as `start_upload` needs.
pub fn upload_sizes_fit(files: &Vec<UploadFile>) -> (r: bool)
    ensures
        r == (total_size(files@) <= u64::MAX),
{
    let mut total: u64 = 0;
    let mut i: usize = 0;
    while i < files.len()
        invariant
            i <= files.len(),
            total == total_size(files@.take(i as int)),
        decreases files.len() - i,
    {
        proof { lemma_total_size_take(files@, i as int); }
        if files[i].size_bytes > u64::MAX - total {
            return false;
        }
        total = total + files[i].size_bytes;
        i = i + 1;
    }
    assert(files@.take(files@.len() as int) =~= files@);
    true
}


// ---------------------------------------------------------------------------
// What the caller's file work does to the progress
// ---------------------------------------------------------------------------

/// `w` is `v` shown running with `status`.
pub open spec fn upload_synced(v: UploadView, w: UploadView, status: UploadStatus) -> bool {
    upload_running(w.state, v.state, v, upload_status_text(status)) && w == (UploadView { state: w.state, ..v })
}

/// `w` is `v` after `read` bytes of the current file, from `offset` on,
/// went to the engine.
pub open spec fn upload_read_effect(v: UploadView, w: UploadView, offset: u64, read: u64) -> bool {
    let size: nat = if v.current_index < v.files.len() { v.files[v.current_index as int].size_bytes as nat } else { 0 };
    let end: nat = (offset + read) as nat;
    let counted = size_before(v.files, v.current_index as int) + (if end < size { end } else { size });
    let mid = UploadView { bytes_transferred: counted, ..v };
    upload_running(w.state, v.state, mid, "Uploading"@) && w == (UploadView { state: w.state, ..mid })
}

/// `b` is `a` started on `local_dir` with `policy`.
pub open spec fn download_start_effect(a: DownloadProgress, b: DownloadProgress, local_dir: String, policy: ZmodemDownloadConflictPolicy) -> bool {
    let mid = DownloadProgress { target_dir: Some(local_dir), conflict_policy: policy, cancel_requested: false, ..a };
    download_running(b.state, a.state, mid, "Waiting for remote files"@) && b == (DownloadProgress { state: b.state, ..mid })
}

/// `b` is `a` after `written` more bytes of the current file were stored.
pub open spec fn download_written_effect(a: DownloadProgress, b: DownloadProgress, written: u64) -> bool {
    let mid = DownloadProgress { bytes_transferred: sat_add(a.bytes_transferred, written), ..a };
    download_running(b.state, a.state, mid, "Receiving files"@) && b == (DownloadProgress { state: b.state, ..mid })
}

/// `b` is `a` after the announced file `start` was created at
/// `target_path`, whose last component is `file_name`.
pub open spec fn download_opened_effect(a: DownloadProgress, b: DownloadProgress, start: FileStart, target_path: String, file_name: Option<String>) -> bool {
    &&& b.current_file_name@ == (if file_name is Some && file_name->0@.len() > 0 { file_name->0@ } else { "download"@ })
    &&& ({
        let mid = DownloadProgress {
            file_open: true,
            current_target_path: Some(target_path),
            current_file_wire_name: Some(start.name),
            current_file_name: b.current_file_name,
            current_file_size: start.size,
            files_started: sat_inc(a.files_started),
            bytes_total: if start.size is Some { sat_add(a.bytes_total, start.size->0) } else { a.bytes_total },
            ..a
        };
        &&& download_running(b.state, a.state, mid, "Receiving files"@)
        &&& b == (DownloadProgress { state: b.state, ..mid })
    })
}

/// The channel is closing: what the output batcher still holds goes through
/// the controller like any remote output (`routed`), and the terminal bytes
/// released so far come back with what it gives. With nothing held, nothing
/// changes. (The caller then runs the transfer's last steps and calls
/// `transport_closed`.)
pub fn closing_output(batcher: &mut SynchronizedOutputBatcher, zmodem: &mut ZmodemController) -> (r: Vec<u8>)
    requires
        old(batcher).wf(),
    ensures
        final(batcher).wf(),
        final(batcher).pending().len() == 0,
        old(batcher).pending().len() == 0 ==> r@.len() == 0 && *final(zmodem) == *old(zmodem),
        old(batcher).pending().len() > 0 ==> r@ == old(zmodem).released_terminal_bytes@ + routed_out(*old(zmodem), old(batcher).pending())
            && routed(*old(zmodem), *final(zmodem), old(batcher).pending())
            && final(zmodem).released_terminal_bytes@.len() == 0,
{
    match batcher.finish() {
        Some(bytes) => zmodem.intercept_remote_bytes(bytes.as_slice()),
        None => Vec::new(),
    }
}

// ---------------------------------------------------------------------------
// What the dialog shows
// ---------------------------------------------------------------------------

pub open spec fn same_opt_text(a: Option<String>, b: Option<String>) -> bool {
    match (a, b) {
        (Some(x), Some(y)) => x@ == y@,
        (None, None) => true,
        _ => false,
    }
}

/// `a` and `b` show the same thing: every field, texts by their characters.
pub open spec fn shown_same(a: ZmodemTransferState, b: ZmodemTransferState) -> bool {
    &&& a.direction == b.direction
    &&& a.phase == b.phase
    &&& a.title@ == b.title@
    &&& a.headline@ == b.headline@
    &&& a.status_text@ == b.status_text@
    &&& a.detail_text@ == b.detail_text@
    &&& a.error_text@ == b.error_text@
    &&& a.current_file_name@ == b.current_file_name@
    &&& a.files_completed == b.files_completed
    &&& a.files_total == b.files_total
    &&& a.bytes_transferred == b.bytes_transferred
    &&& a.bytes_total == b.bytes_total
    &&& same_opt_text(a.local_file_path, b.local_file_path)
    &&& same_opt_text(a.local_reveal_path, b.local_reveal_path)
}

pub open spec fn opt_shown_same(a: Option<ZmodemTransferState>, b: Option<ZmodemTransferState>) -> bool {
    match (a, b) {
        (Some(x), Some(y)) => shown_same(x, y),
        (None, None) => true,
        _ => false,
    }
}

fn same_opt_string(a: &Option<String>, b: &Option<String>) -> (r: bool)
    ensures
        r == same_opt_text(*a, *b),
{
    match (a, b) {
        (Some(x), Some(y)) => same_text(x.as_str(), y.as_str()),
        (None, None) => true,
        _ => false,
    }
}

fn same_shown(a: &Option<ZmodemTransferState>, b: &Option<ZmodemTransferState>) -> (r: bool)
    ensures
        r == opt_shown_same(*a, *b),
{
    match (a, b) {
        (Some(x), Some(y)) => {
            x.direction == y.direction && x.phase == y.phase && same_text(x.title.as_str(), y.title.as_str())
                && same_text(x.headline.as_str(), y.headline.as_str())
                && same_text(x.status_text.as_str(), y.status_text.as_str())
                && same_text(x.detail_text.as_str(), y.detail_text.as_str())
                && same_text(x.error_text.as_str(), y.error_text.as_str())
                && same_text(x.current_file_name.as_str(), y.current_file_name.as_str())
                && x.files_completed == y.files_completed && x.files_total == y.files_total
                && x.bytes_transferred == y.bytes_transferred && x.bytes_total == y.bytes_total
                && same_opt_string(&x.local_file_path, &y.local_file_path)
                && same_opt_string(&x.local_reveal_path, &y.local_reveal_path)
        },
        (None, None) => true,
        _ => false,
    }
}

fn copy_opt_string(s: &Option<String>) -> (r: Option<String>)
    ensures
        r == *s,
{
    match s {
        Some(t) => Some(t.clone()),
        None => None,
    }
}

fn copy_state(s: &ZmodemTransferState) -> (r: ZmodemTransferState)
    ensures
        r == *s,
{
    ZmodemTransferState {
        direction: s.direction,
        phase: s.phase,
        title: s.title.clone(),
        headline: s.headline.clone(),
        status_text: s.status_text.clone(),
        detail_text: s.detail_text.clone(),
        error_text: s.error_text.clone(),
        current_file_name: s.current_file_name.clone(),
        files_completed: s.files_completed,
        files_total: s.files_total,
        bytes_transferred: s.bytes_transferred,
        bytes_total: s.bytes_total,
        local_file_path: copy_opt_string(&s.local_file_path),
        local_reveal_path: copy_opt_string(&s.local_reveal_path),
    }
}

fn copy_opt_state(s: &Option<ZmodemTransferState>) -> (r: Option<ZmodemTransferState>)
    ensures
        r == *s,
{
    match s {
        Some(t) => Some(copy_state(t)),
        None => None,
    }
}

// ---------------------------------------------------------------------------
// The controller
// ---------------------------------------------------------------------------

/// Everything about ZMODEM in one shell session: the scanner that watches
/// remote output while no transfer runs, the transfer that runs, the abort
/// bytes to send after a cancel, what `lrzsz` may still print after a
/// transfer, terminal bytes released between calls, and the dialog (with a
/// flag that it changed since it was last taken).
pub struct ZmodemController {
    pub scanner: ZmodemPrefixScanner,
    pub session: Option<ZmodemSession>,
    pub pending_control_wire: Option<Vec<u8>>,
    pub post_session_tail: Option<PostSessionTail>,
    pub released_terminal_bytes: Vec<u8>,
    pub modal_state: Option<ZmodemTransferState>,
    pub modal_dirty: bool,
}

/// `d`'s dialog is `state`, flagged as changed when it shows something
/// other than `c`'s did (or `c`'s was flagged already).
pub open spec fn modal_became(c: ZmodemController, d: ZmodemController, state: Option<ZmodemTransferState>) -> bool {
    &&& d.modal_state == state
    &&& d.modal_dirty == (c.modal_dirty || !opt_shown_same(c.modal_state, state))
}

pub open spec fn same_modal(c: ZmodemController, d: ZmodemController) -> bool {
    d.modal_state == c.modal_state && d.modal_dirty == c.modal_dirty
}

/// What a failure starts from: the dialog, or else the transfer's own state.
pub open spec fn state_before_failure(c: ZmodemController) -> Option<ZmodemTransferState> {
    match c.modal_state {
        Some(s) => Some(s),
        None => match c.session {
            Some(t) => Some(t.shown()),
            None => None,
        },
    }
}

/// `d` is `c` after its transfer failed with `error_text`: the transfer and
/// any tail are gone, and the dialog (if there is anything to show) says so.
pub open spec fn failed_from(c: ZmodemController, d: ZmodemController, error_text: Seq<char>) -> bool {
    &&& d.session is None
    &&& d.post_session_tail is None
    &&& d.scanner == c.scanner
    &&& d.pending_control_wire == c.pending_control_wire
    &&& match state_before_failure(c) {
        None => same_modal(c, d),
        Some(before) => {
            &&& d.modal_state matches Some(m) && failed_state(m, before, error_text)
            &&& d.modal_dirty == (c.modal_dirty || !opt_shown_same(c.modal_state, d.modal_state))
        },
    }
}

/// What the scanner hands the terminal when `b` follows what it holds.
pub open spec fn scan_out(v: ScanState, b: Seq<u8>) -> Seq<u8> {
    scan_held(ScanState { held: v.held + b, ..v }, Seq::empty()).1
}

/// `d` is `c` after a transfer in `direction` was spotted, whose first
/// remote bytes are `protocol`: either a fresh transfer runs that has been
/// handed exactly those bytes and the dialog waits for the user, or the
/// engine refused them and the dialog says the transfer failed.
pub open spec fn transfer_began(c: ZmodemController, d: ZmodemController, direction: ZmodemTransferDirection, protocol: Seq<u8>) -> bool {
    ||| {
        &&& d.session matches Some(t) && t.direction_spec() == direction && t.wire() == protocol
            && !t.finished_spec() && is_initial_state(t.shown(), direction)
        &&& d.modal_state matches Some(m) && is_initial_state(m, direction)
        &&& d.modal_dirty == (c.modal_dirty || !opt_shown_same(c.modal_state, d.modal_state))
    }
    ||| {
        &&& d.session is None
        &&& d.modal_state matches Some(m) && exists|first: ZmodemTransferState, e: Seq<char>|
            is_initial_state(first, direction) && #[trigger] failed_state(m, first, "ZMODEM protocol error: "@ + e)
    }
}

/// `d` is `c` after the scanner read `b` while no transfer ran (what
/// becomes of a tail is said where it matters).
pub open spec fn scanned(c: ZmodemController, d: ZmodemController, b: Seq<u8>) -> bool {
    let (v, out, started) = scan_held(ScanState { held: c.scanner@.held + b, ..c.scanner@ }, Seq::empty());
    &&& d.scanner@ == v
    &&& d.pending_control_wire == c.pending_control_wire
    &&& match started {
        None => d.session == c.session && same_modal(c, d),
        Some((direction, protocol)) => transfer_began(c, d, direction, protocol),
    }
}

/// `d` is `c` after `b` was routed to its running transfer: the transfer
/// has been handed exactly `b`, or the engine refused and it failed.
pub open spec fn handed_to_transfer(c: ZmodemController, d: ZmodemController, b: Seq<u8>) -> bool {
    ||| {
        &&& c.session matches Some(t) && d.session matches Some(u) && u.same_progress(t) && u.wire() == t.wire() + b
        &&& d.scanner == c.scanner
        &&& d.pending_control_wire == c.pending_control_wire
        &&& d.post_session_tail == c.post_session_tail
        &&& same_modal(c, d)
    }
    ||| exists|e: Seq<char>| #[trigger] failed_from(c, d, "ZMODEM protocol error: "@ + e)
}

/// What the terminal gets of remote bytes `b` (not empty) in state `c`:
/// nothing while a transfer runs or while they are the tail `lrzsz` prints
/// after one, else what the scanner lets through.
pub open spec fn routed_out(c: ZmodemController, b: Seq<u8>) -> Seq<u8> {
    if c.session is Some {
        Seq::empty()
    } else {
        match c.post_session_tail {
            Some(t) => match tail_consume(t.direction, t.stage, t.candidate@, b).0 {
                Some(rest) => if rest.len() == 0 { Seq::empty() } else { scan_out(c.scanner@, rest) },
                None => Seq::empty(),
            },
            None => scan_out(c.scanner@, b),
        }
    }
}

/// `d` is `c` after remote bytes `b` (not empty) arrived, terminal bytes
/// aside: a running transfer is handed them; else a tail left by the last
/// transfer takes what it expects and the scanner reads what follows; else
/// the scanner reads them all.
pub open spec fn routed(c: ZmodemController, d: ZmodemController, b: Seq<u8>) -> bool {
    if c.session is Some {
        handed_to_transfer(c, d, b)
    } else {
        match c.post_session_tail {
            Some(t) => {
                let (out, stage, candidate) = tail_consume(t.direction, t.stage, t.candidate@, b);
                match out {
                    None => {
                        &&& d.post_session_tail matches Some(u) && u.direction == t.direction && u.stage == stage
                            && u.candidate@ == candidate
                        &&& d.scanner == c.scanner && d.session == c.session
                        &&& d.pending_control_wire == c.pending_control_wire
                        &&& same_modal(c, d)
                    },
                    Some(rest) => {
                        &&& d.post_session_tail is None
                        &&& rest.len() == 0 ==> d.scanner == c.scanner && d.session == c.session
                            && d.pending_control_wire == c.pending_control_wire && same_modal(c, d)
                        &&& rest.len() > 0 ==> scanned(c, d, rest)
                    },
                }
            },
            None => d.post_session_tail is None && scanned(c, d, b),
        }
    }
}

/// Routing does not look at terminal bytes already released.
proof fn lemma_routed_ignores_released(c: ZmodemController, c2: ZmodemController, d: ZmodemController, b: Seq<u8>)
    requires
        routed(c, d, b),
        c2 == (ZmodemController { released_terminal_bytes: c2.released_terminal_bytes, ..c }),
    ensures
        routed(c2, d, b),
        routed_out(c2, b) == routed_out(c, b),
{
    if c.session is Some {
        if exists|e: Seq<char>| #[trigger] failed_from(c, d, "ZMODEM protocol error: "@ + e) {
            let e = choose|e: Seq<char>| #[trigger] failed_from(c, d, "ZMODEM protocol error: "@ + e);
            assert(failed_from(c2, d, "ZMODEM protocol error: "@ + e));
        }
    }
}

/// `c` with its transfer `s` taken out and the dialog showing `s`.
pub open spec fn with_shown(c: ZmodemController, s: ZmodemSession) -> ZmodemController {
    ZmodemController {
        session: None,
        modal_state: Some(s.shown()),
        modal_dirty: c.modal_dirty || !opt_shown_same(c.modal_state, Some(s.shown())),
        ..c
    }
}

/// `d` is `c` (no transfer runs) after the finished transfer `s` was put
/// away. What the engine never took goes, after a completed transfer,
/// through a fresh tail first; whatever is left is remote output like any
/// other, and the terminal bytes it gives are released.
pub open spec fn settled(c: ZmodemController, d: ZmodemController, s: ZmodemSession) -> bool {
    let p = s.pending();
    let unchanged = d.scanner == c.scanner && d.session is None && d.pending_control_wire == c.pending_control_wire
        && same_modal(c, d) && d.released_terminal_bytes == c.released_terminal_bytes;
    if s.shown().phase == ZmodemTransferPhase::Completed {
        let (out, stage, candidate) = tail_consume(s.direction_spec(), PostSessionTailStage::Trailer, Seq::empty(), p);
        match out {
            None => {
                &&& d.post_session_tail matches Some(t) && t.direction == s.direction_spec() && t.stage == stage
                    && t.candidate@ == candidate
                &&& unchanged
            },
            Some(rest) => {
                let c2 = ZmodemController { post_session_tail: None, ..c };
                &&& rest.len() == 0 ==> d.post_session_tail is None && unchanged
                &&& rest.len() > 0 ==> routed(c2, d, rest)
                    && d.released_terminal_bytes@ == c.released_terminal_bytes@ + routed_out(c2, rest)
            },
        }
    } else {
        &&& p.len() == 0 ==> d.post_session_tail == c.post_session_tail && unchanged
        &&& p.len() > 0 ==> routed(c, d, p) && d.released_terminal_bytes@ == c.released_terminal_bytes@ + routed_out(c, p)
    }
}

/// `d` and `r` are what `c` (no abort bytes waiting) becomes after its
/// transfer stepped to `t` with `res`: a failed step ends the transfer with
/// the dialog saying "ZMODEM transfer failed: " and why; else the step is
/// the result, the dialog shows `t`, and a finished `t` is put away
/// (`settled`) while an unfinished one keeps running.
pub open spec fn advanced(c: ZmodemController, d: ZmodemController, t: ZmodemSession, res: Result<ZmodemStep, String>, r: ZmodemStep) -> bool {
    match res {
        Err(m) => r == ZmodemStep::Continue
            && failed_from(ZmodemController { session: None, ..c }, d, "ZMODEM transfer failed: "@ + m@)
            && d.released_terminal_bytes == c.released_terminal_bytes,
        Ok(step) => {
            &&& r == step
            &&& t.finished_spec() ==> settled(with_shown(c, t), d, t)
            &&& !t.finished_spec() ==> {
                &&& d.session == Some(t)
                &&& modal_became(c, d, Some(t.shown()))
                &&& d.scanner == c.scanner
                &&& d.pending_control_wire == c.pending_control_wire
                &&& d.post_session_tail == c.post_session_tail
                &&& d.released_terminal_bytes == c.released_terminal_bytes
            }
        },
    }
}

/// The dialog `m` says that `s` was cancelled by the user.
pub open spec fn cancelled_from(s: ZmodemSession, m: ZmodemTransferState) -> bool {
    match s {
        ZmodemSession::Sender { progress, .. } => upload_cancelled(m, progress@.state, progress@),
        ZmodemSession::Receiver { progress, .. } => download_cancelled(m, progress.state, progress),
    }
}

pub open spec fn same_but_scanner(c: ZmodemController, d: ZmodemController) -> bool {
    &&& d.session == c.session
    &&& d.pending_control_wire == c.pending_control_wire
    &&& d.post_session_tail == c.post_session_tail
    &&& d.released_terminal_bytes == c.released_terminal_bytes
    &&& same_modal(c, d)
}

pub open spec fn same_but_session(c: ZmodemController, d: ZmodemController) -> bool {
    &&& d.scanner == c.scanner
    &&& d.pending_control_wire == c.pending_control_wire
    &&& d.post_session_tail == c.post_session_tail
    &&& d.released_terminal_bytes == c.released_terminal_bytes
    &&& same_modal(c, d)
}

pub open spec fn same_but_modal(c: ZmodemController, d: ZmodemController) -> bool {
    &&& d.scanner == c.scanner
    &&& d.session == c.session
    &&& d.pending_control_wire == c.pending_control_wire
    &&& d.post_session_tail == c.post_session_tail
    &&& d.released_terminal_bytes == c.released_terminal_bytes
}

/// Routing does not touch terminal bytes already released.
proof fn lemma_routed_result_ignores_released(c: ZmodemController, d: ZmodemController, d2: ZmodemController, b: Seq<u8>)
    requires
        routed(c, d, b),
        d2 == (ZmodemController { released_terminal_bytes: d2.released_terminal_bytes, ..d }),
    ensures
        routed(c, d2, b),
{
    if c.session is Some {
        if exists|e: Seq<char>| #[trigger] failed_from(c, d, "ZMODEM protocol error: "@ + e) {
            let e = choose|e: Seq<char>| #[trigger] failed_from(c, d, "ZMODEM protocol error: "@ + e);
            assert(failed_from(c, d2, "ZMODEM protocol error: "@ + e));
        }
    }
}

/// No transfer to cancel.
#[derive(Debug, Clone, Copy, PartialEq, Eq)]
pub struct NoActiveTransfer;

impl NoActiveTransfer {
    pub fn message(&self) -> (r: &'static str)
        ensures
            r@ == "no active zmodem transfer"@,
    {
        "no active zmodem transfer"
    }
}

impl ZmodemController {
    /// Nothing held back, no transfer, no dialog.
    pub fn new() -> (r: Self)
        ensures
            r.scanner@ == (ScanState { held: Seq::empty(), visible: 0, echo_expected: false }),
            r.session is None,
            r.pending_control_wire is None,
            r.post_session_tail is None,
            r.released_terminal_bytes@.len() == 0,
            r.modal_state is None,
            !r.modal_dirty,
    {
        ZmodemController {
            scanner: ZmodemPrefixScanner::new(),
            session: None,
            pending_control_wire: None,
            post_session_tail: None,
            released_terminal_bytes: Vec::new(),
            modal_state: None,
            modal_dirty: false,
        }
    }

    fn set_modal_state(&mut self, state: Option<ZmodemTransferState>)
        ensures
            modal_became(*old(self), *final(self), state),
            final(self).scanner == old(self).scanner,
            final(self).session == old(self).session,
            final(self).pending_control_wire == old(self).pending_control_wire,
            final(self).post_session_tail == old(self).post_session_tail,
            final(self).released_terminal_bytes == old(self).released_terminal_bytes,
    {
        if !same_shown(&self.modal_state, &state) {
            self.modal_dirty = true;
        }
        self.modal_state = state;
    }

    /// The transfer failed with `error_text`: it is dropped, and the dialog
    /// (or else the transfer's own state) is marked failed.
    fn fail_session(&mut self, error_text: String)
        ensures
            failed_from(*old(self), *final(self), error_text@),
            final(self).released_terminal_bytes == old(self).released_terminal_bytes,
    {
        let state = match &self.modal_state {
            Some(s) => Some(copy_state(s)),
            None => match &self.session {
                Some(t) => Some(copy_state(t.state())),
                None => None,
            },
        };
        self.session = None;
        self.post_session_tail = None;
        match state {
            Some(s) => self.set_modal_state(Some(fail_state(s, error_text))),
            None => {},
        }
    }

    /// Hands `bytes` to the running transfer; a refusal fails it.
    fn submit_to_session(&mut self, bytes: &[u8])
        requires
            old(self).session is Some,
        ensures
            handed_to_transfer(*old(self), *final(self), bytes@),
            final(self).released_terminal_bytes == old(self).released_terminal_bytes,
    {
        let mut session = match self.session.take() {
            Some(s) => s,
            None => {
                return;
            },
        };
        let result = session.submit_wire(bytes);
        self.session = Some(session);
        match result {
            Ok(()) => {},
            Err(e) => {
                let text = cat("ZMODEM protocol error: ", e.message.as_str());
                self.fail_session(text);
                assert(failed_from(*old(self), *self, "ZMODEM protocol error: "@ + e.message@));
            },
        }
    }

    /// A transfer in `direction` was spotted and `protocol` is its start.
    fn begin_transfer(&mut self, direction: ZmodemTransferDirection, protocol: &[u8])
        requires
            old(self).session is None,
            old(self).post_session_tail is None,
        ensures
            transfer_began(*old(self), *final(self), direction, protocol@),
            final(self).post_session_tail is None,
            final(self).scanner == old(self).scanner,
            final(self).pending_control_wire == old(self).pending_control_wire,
            final(self).released_terminal_bytes == old(self).released_terminal_bytes,
    {
        match ZmodemSession::new(direction) {
            Ok(session) => {
                self.session = Some(session);
                self.set_modal_state(Some(initial_transfer_state(direction)));
                self.submit_to_session(protocol);
                assert(protocol@ =~= Seq::<u8>::empty() + protocol@);
            },
            Err(e) => {
                let first = initial_transfer_state(direction);
                self.set_modal_state(Some(first));
                let text = cat("ZMODEM protocol error: ", e.message.as_str());
                self.fail_session(text);
            },
        }
    }

    /// The scanner reads `bytes`; a transfer it spots begins.
    fn scan_remote_bytes(&mut self, bytes: &[u8]) -> (out: Vec<u8>)
        requires
            bytes@.len() > 0,
            old(self).session is None,
            old(self).post_session_tail is None,
        ensures
            scanned(*old(self), *final(self), bytes@),
            final(self).post_session_tail is None,
            out@ == scan_out(old(self).scanner@, bytes@),
            final(self).released_terminal_bytes == old(self).released_terminal_bytes,
    {
        let ScanOutcome { terminal_bytes, started } = self.scanner.scan(bytes);
        match started {
            Some((direction, protocol)) => self.begin_transfer(direction, protocol.as_slice()),
            None => {},
        }
        terminal_bytes
    }

    /// Routes remote bytes: see `routed` and `routed_out`.
    fn route_remote_bytes(&mut self, bytes: &[u8]) -> (out: Vec<u8>)
        requires
            bytes@.len() > 0,
        ensures
            routed(*old(self), *final(self), bytes@),
            out@ == routed_out(*old(self), bytes@),
            final(self).released_terminal_bytes == old(self).released_terminal_bytes,
    {
        if self.session.is_some() {
            self.submit_to_session(bytes);
            return Vec::new();
        }
        match self.post_session_tail.take() {
            Some(mut tail) => match tail.consume(bytes) {
                PostSessionTailOutcome::Pending => {
                    self.post_session_tail = Some(tail);
                    Vec::new()
                },
                PostSessionTailOutcome::Released(rest) => {
                    if rest.len() == 0 {
                        return Vec::new();
                    }
                    self.scan_remote_bytes(rest.as_slice())
                },
            },
            None => self.scan_remote_bytes(bytes),
        }
    }

    /// Takes remote output and gives back what the terminal shows: first the
    /// terminal bytes released since the last call, then what becomes of
    /// `bytes` (see `routed_out`). The rest of the state changes as `routed`
    /// says.
    pub fn intercept_remote_bytes(&mut self, bytes: &[u8]) -> (r: Vec<u8>)
        ensures
            final(self).released_terminal_bytes@.len() == 0,
            bytes@.len() == 0 ==> r@ == old(self).released_terminal_bytes@ && final(self).scanner == old(self).scanner
                && final(self).session == old(self).session && final(self).post_session_tail == old(self).post_session_tail
                && final(self).pending_control_wire == old(self).pending_control_wire && same_modal(*old(self), *final(self)),
            bytes@.len() > 0 ==> r@ == old(self).released_terminal_bytes@ + routed_out(*old(self), bytes@)
                && routed(*old(self), *final(self), bytes@),
    {
        let mut released: Vec<u8> = Vec::new();
        std::mem::swap(&mut released, &mut self.released_terminal_bytes);
        if bytes.len() == 0 {
            return released;
        }
        let ghost mid = *self;
        let out = self.route_remote_bytes(bytes);
        proof {
            lemma_routed_ignores_released(mid, *old(self), *self, bytes@);
        }
        extend_range(&mut released, out.as_slice(), 0, out.len());
        assert(out@.subrange(0, out@.len() as int) =~= out@);
        released
    }

    /// The user typed: an expected `rz` echo will not come.
    pub fn note_local_input(&mut self)
        ensures
            final(self).scanner@ == (ScanState { echo_expected: false, ..old(self).scanner@ }),
            same_but_scanner(*old(self), *final(self)),
    {
        self.scanner.note_local_input();
    }

    /// This program typed `rz` itself: its echo may come before the transfer.
    pub fn expect_automatic_rz_echo(&mut self)
        ensures
            final(self).scanner@ == (ScanState { echo_expected: true, ..old(self).scanner@ }),
            same_but_scanner(*old(self), *final(self)),
    {
        self.scanner.expect_automatic_rz_echo();
    }

    pub fn cancel_automatic_rz_echo_expectation(&mut self)
        ensures
            final(self).scanner@ == (ScanState { echo_expected: false, ..old(self).scanner@ }),
            same_but_scanner(*old(self), *final(self)),
    {
        self.scanner.cancel_automatic_rz_echo_expectation();
    }

    /// Everything held back, for when the channel goes quiet or closes: the
    /// released bytes, and while no transfer runs what the scanner holds and
    /// has not shown.
    pub fn flush_terminal_bytes(&mut self) -> (r: Vec<u8>)
        ensures
            final(self).released_terminal_bytes@.len() == 0,
            old(self).session is Some ==> r@ == old(self).released_terminal_bytes@ && final(self).scanner == old(self).scanner,
            old(self).session is None ==> r@ == old(self).released_terminal_bytes@ + old(self).scanner@.held.skip(
                old(self).scanner@.visible as int,
            ) && final(self).scanner@ == (ScanState { held: Seq::empty(), visible: 0, ..old(self).scanner@ }),
            final(self).session == old(self).session,
            final(self).pending_control_wire == old(self).pending_control_wire,
            final(self).post_session_tail == old(self).post_session_tail,
            same_modal(*old(self), *final(self)),
    {
        let mut out = self.take_released_terminal_bytes();
        if self.session.is_none() {
            let held = self.scanner.flush();
            extend_range(&mut out, held.as_slice(), 0, held.len());
            assert(held@.subrange(0, held@.len() as int) =~= held@);
        }
        out
    }

    pub fn take_released_terminal_bytes(&mut self) -> (r: Vec<u8>)
        ensures
            r@ == old(self).released_terminal_bytes@,
            final(self).released_terminal_bytes@.len() == 0,
            final(self).scanner == old(self).scanner,
            final(self).session == old(self).session,
            final(self).pending_control_wire == old(self).pending_control_wire,
            final(self).post_session_tail == old(self).post_session_tail,
            same_modal(*old(self), *final(self)),
    {
        let mut out: Vec<u8> = Vec::new();
        std::mem::swap(&mut out, &mut self.released_terminal_bytes);
        out
    }

    /// The user cancelled: the transfer ends here, the remote side is to be
    /// sent the abort bytes, a tail is no longer expected, nor an `rz` echo,
    /// and the dialog says how far the transfer got. Without a transfer
    /// nothing changes.
    pub fn cancel(&mut self) -> (r: Result<(), NoActiveTransfer>)
        ensures
            r is Err <==> old(self).session is None,
            r is Err ==> *final(self) == *old(self),
            r is Ok ==> {
                &&& final(self).session is None
                &&& final(self).post_session_tail is None
                &&& final(self).pending_control_wire matches Some(w) && w@ == abort_wire()
                &&& final(self).scanner@ == (ScanState { echo_expected: false, ..old(self).scanner@ })
                &&& final(self).released_terminal_bytes == old(self).released_terminal_bytes
                &&& final(self).modal_state matches Some(m) && cancelled_from(old(self).session->0, m)
                &&& final(self).modal_dirty == (old(self).modal_dirty || !opt_shown_same(old(self).modal_state, final(self).modal_state))
            },
    {
        let mut session = match self.session.take() {
            Some(s) => s,
            None => {
                return Err(NoActiveTransfer);
            },
        };
        session.cancel();
        self.pending_control_wire = Some(abort_wire_bytes());
        self.post_session_tail = None;
        self.scanner.cancel_automatic_rz_echo_expectation();
        let state = copy_state(session.state());
        self.set_modal_state(Some(state));
        Ok(())
    }

    /// Closes the dialog of a transfer that no longer runs.
    pub fn dismiss(&mut self) -> (r: bool)
        ensures
            r == (old(self).session is None && old(self).modal_state is Some),
            r ==> final(self).modal_state is None && final(self).modal_dirty && same_but_modal(*old(self), *final(self)),
            !r ==> *final(self) == *old(self),
    {
        if self.session.is_some() || self.modal_state.is_none() {
            return false;
        }
        self.set_modal_state(None);
        true
    }

    /// Closes the dialog only when it still shows `expected`.
    pub fn dismiss_if_matches(&mut self, expected: &ZmodemTransferState) -> (r: bool)
        ensures
            r == (old(self).modal_state matches Some(m) && shown_same(m, *expected) && old(self).session is None),
            r ==> final(self).modal_state is None && final(self).modal_dirty && same_but_modal(*old(self), *final(self)),
            !r ==> *final(self) == *old(self),
    {
        if !same_shown(&self.modal_state, &Some(copy_state(expected))) {
            return false;
        }
        self.dismiss()
    }

    pub fn current_state(&self) -> (r: Option<&ZmodemTransferState>)
        ensures
            r is None <==> self.modal_state is None,
            r matches Some(s) ==> self.modal_state == Some(*s),
    {
        match &self.modal_state {
            Some(s) => Some(s),
            None => None,
        }
    }

    /// The dialog, if it changed since it was last taken.
    pub fn take_modal_state_change(&mut self) -> (r: Option<Option<ZmodemTransferState>>)
        ensures
            !old(self).modal_dirty ==> r is None && *final(self) == *old(self),
            old(self).modal_dirty ==> r == Some(old(self).modal_state) && !final(self).modal_dirty
                && final(self).modal_state == old(self).modal_state && same_but_modal(*old(self), *final(self)),
    {
        if !self.modal_dirty {
            return None;
        }
        self.modal_dirty = false;
        Some(copy_opt_state(&self.modal_state))
    }

    /// Shows `error_text` in the dialog, if there is one.
    pub fn surface_error(&mut self, error_text: String)
        ensures
            old(self).modal_state is None ==> *final(self) == *old(self),
            old(self).modal_state matches Some(s) ==> final(self).modal_state == Some(ZmodemTransferState { error_text, ..s })
                && final(self).modal_dirty && same_but_modal(*old(self), *final(self)),
    {
        match self.modal_state.take() {
            Some(mut state) => {
                state.error_text = error_text;
                self.modal_state = Some(state);
                self.modal_dirty = true;
            },
            None => {},
        }
    }

    /// Remote bytes that a transfer left behind, routed as remote output.
    fn route_unconsumed(&mut self, bytes: &[u8])
        ensures
            bytes@.len() == 0 ==> *final(self) == *old(self),
            bytes@.len() > 0 ==> routed(*old(self), *final(self), bytes@)
                && final(self).released_terminal_bytes@ == old(self).released_terminal_bytes@ + routed_out(*old(self), bytes@),
    {
        if bytes.len() == 0 {
            return;
        }
        let out = self.route_remote_bytes(bytes);
        let ghost mid = *self;
        extend_range(&mut self.released_terminal_bytes, out.as_slice(), 0, out.len());
        assert(out@.subrange(0, out@.len() as int) =~= out@);
        proof {
            lemma_routed_result_ignores_released(*old(self), mid, *self, bytes@);
        }
    }

    /// Puts away the finished transfer `session`: see `settled`.
    fn settle_finished(&mut self, session: ZmodemSession)
        requires
            old(self).session is None,
        ensures
            settled(*old(self), *final(self), session),
    {
        let direction = session.direction();
        let completed = session.state().phase == ZmodemTransferPhase::Completed;
        let mut session = session;
        let pending = session.take_pending_wire();
        if completed {
            let mut tail = PostSessionTail::new(direction);
            assert(tail.candidate@ =~= Seq::<u8>::empty());
            match tail.consume(pending.as_slice()) {
                PostSessionTailOutcome::Pending => {
                    self.post_session_tail = Some(tail);
                },
                PostSessionTailOutcome::Released(rest) => {
                    self.post_session_tail = None;
                    assert(*self == ZmodemController { post_session_tail: None, ..*old(self) });
                    self.route_unconsumed(rest.as_slice());
                },
            }
        } else {
            self.route_unconsumed(pending.as_slice());
        }
    }

    /// One step: abort bytes waiting after a cancel go out first; else the
    /// running transfer steps. A finished transfer is put away (`settled`),
    /// and a step that fails ends the transfer with the dialog saying why.
    pub fn advance(&mut self) -> (r: ZmodemStep)
        ensures
            old(self).pending_control_wire matches Some(w) ==> r == ZmodemStep::WriteWire(w)
                && final(self).pending_control_wire is None
                && final(self).session == old(self).session && final(self).scanner == old(self).scanner
                && final(self).post_session_tail == old(self).post_session_tail
                && final(self).released_terminal_bytes == old(self).released_terminal_bytes
                && same_modal(*old(self), *final(self)),
            old(self).pending_control_wire is None && old(self).session is None ==> r == ZmodemStep::Idle
                && *final(self) == *old(self),
            old(self).pending_control_wire is None ==> match old(self).session {
                Some(s) => s.finished_spec() ==> r == ZmodemStep::Idle && settled(with_shown(*old(self), s), *final(self), s),
                None => true,
            },
            old(self).pending_control_wire is None ==> final(self).pending_control_wire is None,
            old(self).pending_control_wire is None ==> match old(self).session {
                Some(s) => exists|t: ZmodemSession, res: Result<ZmodemStep, String>|
                    #[trigger] stepped(s, t, res) && advanced(*old(self), *final(self), t, res, r),
                None => true,
            },
    {
        match self.pending_control_wire.take() {
            Some(w) => {
                return ZmodemStep::WriteWire(w);
            },
            None => {},
        }
        let mut session = match self.session.take() {
            Some(s) => s,
            None => {
                return ZmodemStep::Idle;
            },
        };
        let ghost s0 = session;
        let result = session.step();
        let ghost res = result;
        let ghost t = session;
        let step = match result {
            Ok(step) => step,
            Err(message) => {
                let text = cat("ZMODEM transfer failed: ", message.as_str());
                self.fail_session(text);
                assert(stepped(s0, t, res) && advanced(*old(self), *self, t, res, ZmodemStep::Continue));
                return ZmodemStep::Continue;
            },
        };
        let state = copy_state(session.state());
        self.set_modal_state(Some(state));
        if session.is_finished() {
            self.settle_finished(session);
        } else {
            self.session = Some(session);
        }
        assert(stepped(s0, t, res) && advanced(*old(self), *self, t, res, step));
        step
    }

    /// `written` bytes of what the engine asked to send went out.
    pub fn note_wire_written(&mut self, written: usize)
        ensures
            old(self).session is None ==> *final(self) == *old(self),
            old(self).session matches Some(s) ==> final(self).session matches Some(t) && t.same_progress(s) && t.wire() == s.wire(),
            final(self).scanner == old(self).scanner,
            final(self).pending_control_wire == old(self).pending_control_wire,
            final(self).post_session_tail == old(self).post_session_tail,
            final(self).released_terminal_bytes == old(self).released_terminal_bytes,
            same_modal(*old(self), *final(self)),
    {
        let mut session = match self.session.take() {
            Some(s) => s,
            None => {
                return;
            },
        };
        session.wire_written(written);
        self.session = Some(session);
    }

    /// The channel closed: no `rz` echo or tail will come, and a transfer
    /// that was under way failed.
    pub fn mark_transport_closed(&mut self)
        ensures
            final(self).scanner@ == (ScanState { echo_expected: false, ..old(self).scanner@ }),
            final(self).post_session_tail is None,
            final(self).released_terminal_bytes == old(self).released_terminal_bytes,
            ({
                let active = old(self).session is Some || (old(self).modal_state matches Some(m)
                    && (m.phase == ZmodemTransferPhase::AwaitingUploadSelection
                    || m.phase == ZmodemTransferPhase::AwaitingDownloadDirectory
                    || m.phase == ZmodemTransferPhase::Running));
                &&& active ==> failed_from(ZmodemController { scanner: final(self).scanner, ..*old(self) }, *final(self),
                    "The SSH channel closed before the ZMODEM transfer finished."@)
                &&& !active ==> final(self).session == old(self).session
                    && final(self).pending_control_wire == old(self).pending_control_wire && same_modal(*old(self), *final(self))
            }),
    {
        self.scanner.cancel_automatic_rz_echo_expectation();
        if transfer_was_active(self.session.is_some(), &self.modal_state) {
            self.fail_session(String::from_str("The SSH channel closed before the ZMODEM transfer finished."));
        }
        self.post_session_tail = None;
    }

    /// The user picked `files` for the upload the remote `rz` waits for: the
    /// engine is told about the first, whose path the caller then opens
    /// (and reports with `upload_file_opened`). The errors are those of the
    /// upload's start, or of the engine; they leave the transfer running.
    pub fn start_upload(&mut self, files: Vec<UploadFile>) -> (r: Result<String, String>)
        requires
            total_size(files@) <= u64::MAX,
        ensures
            !(old(self).session matches Some(ZmodemSession::Sender { .. })) ==> (r matches Err(m)
                && m@ == "zmodem upload is not pending"@) && *final(self) == *old(self),
            (old(self).session matches Some(t) && t is Sender && t.finished_spec()) ==> (r matches Err(m)
                && m@ == "zmodem upload is already finished"@),
            (old(self).session matches Some(t) && t is Sender && !t.finished_spec() && files@.len() == 0)
                ==> (r matches Err(m) && m@ == "no files were selected"@),
            r matches Ok(path) ==> files@.len() > 0 && path@ == files@[0].path@,
            final(self).session is Some <==> old(self).session is Some,
            same_but_session(*old(self), *final(self)),
            match old(self).session {
                Some(ZmodemSession::Sender { progress: a, .. }) => final(self).session matches Some(ZmodemSession::Sender { progress: b, .. })
                    && (!a@.finished && files@.len() > 0 ==> {
                        &&& b@ == (UploadView { files: files@, current_index: 0, bytes_transferred: 0, ..a@ })
                        &&& files@[0].size_bytes > 0xffff_ffff ==> (r matches Err(m) && m@ == "file exceeds ZMODEM size limit"@)
                    })
                    && (!(!a@.finished && files@.len() > 0) ==> b@ == a@),
                _ => true,
            },
    {
        let mut session = match self.session.take() {
            Some(s) => s,
            None => {
                return Err(String::from_str("zmodem upload is not pending"));
            },
        };
        let r = match &mut session {
            ZmodemSession::Sender { engine, progress, .. } => match progress.start(files) {
                Err(e) => Err(String::from_str(e.message())),
                Ok(()) => start_current_upload_file(engine, progress),
            },
            ZmodemSession::Receiver { .. } => Err(String::from_str("zmodem upload is not pending")),
        };
        self.session = Some(session);
        r
    }

    /// The caller opened the upload file it was asked to: the dialog shows
    /// the upload running with `status`.
    pub fn upload_file_opened(&mut self, status: UploadStatus)
        ensures
            !(old(self).session matches Some(ZmodemSession::Sender { .. })) ==> *final(self) == *old(self),
            match old(self).session {
                Some(ZmodemSession::Sender { progress: a, .. }) => final(self).session matches Some(ZmodemSession::Sender { progress: b, .. })
                    && upload_synced(a@, b@, status),
                _ => true,
            },
            final(self).session is Some <==> old(self).session is Some,
            same_but_session(*old(self), *final(self)),
    {
        let mut session = match self.session.take() {
            Some(s) => s,
            None => {
                return;
            },
        };
        match &mut session {
            ZmodemSession::Sender { progress, .. } => progress.sync_running_state(status),
            ZmodemSession::Receiver { .. } => {},
        }
        self.session = Some(session);
    }

    /// The caller read `data` at `offset` of the upload file, as it was
    /// asked to: it goes to the engine and is counted. Nothing read (the file
    /// ended early) or a refusal by the engine ends the transfer.
    pub fn file_data_read(&mut self, offset: u64, data: &[u8])
        requires
            offset + data@.len() <= u64::MAX,
        ensures
            final(self).released_terminal_bytes == old(self).released_terminal_bytes,
            !(old(self).session matches Some(ZmodemSession::Sender { .. })) ==> *final(self) == *old(self),
            match old(self).session {
                Some(ZmodemSession::Sender { progress, .. }) => data@.len() == 0 ==> failed_from(*old(self), *final(self),
                    "ZMODEM transfer failed: "@ + ("unexpected end of local file `"@ + (if progress@.current_index
                        < progress@.files.len() {
                        progress@.files[progress@.current_index as int].display_name@
                    } else {
                        Seq::empty()
                    }) + "`"@)),
                _ => true,
            },
            match old(self).session {
                Some(ZmodemSession::Sender { progress: a, .. }) => data@.len() > 0 ==> {
                    ||| final(self).session matches Some(ZmodemSession::Sender { progress: b, .. })
                        && upload_read_effect(a@, b@, offset, data@.len() as u64) && same_but_session(*old(self), *final(self))
                    ||| exists|m: Seq<char>| #[trigger] failed_from(*old(self), *final(self), "ZMODEM transfer failed: "@ + m)
                },
                _ => true,
            },
    {
        if data.len() == 0 {
            let name = match &self.session {
                Some(ZmodemSession::Sender { progress, .. }) => match progress.current_file() {
                    Some(file) => file.display_name.clone(),
                    None => String::new(),
                },
                _ => {
                    return;
                },
            };
            let head = cat("unexpected end of local file `", name.as_str());
            let message = cat(head.as_str(), "`");
            self.transfer_failed(message.as_str());
            return;
        }
        let mut session = match self.session.take() {
            Some(s) => s,
            None => {
                return;
            },
        };
        let failure = match &mut session {
            ZmodemSession::Sender { engine, progress, .. } => match sender_submit_file(engine, data) {
                Err(e) => Some(e.message),
                Ok(()) => {
                    progress.note_file_read(offset, data.len() as u64);
                    None
                },
            },
            ZmodemSession::Receiver { .. } => None,
        };
        self.session = Some(session);
        match failure {
            Some(message) => {
                assert(state_before_failure(*self) == state_before_failure(*old(self)));
                self.transfer_failed(message.as_str());
                assert(failed_from(*old(self), *self, "ZMODEM transfer failed: "@ + message@));
            },
            None => {},
        }
    }

    /// The user picked `local_dir` (which the caller created) for the
    /// download the remote `sz` offers, and a policy for files already there.
    pub fn start_download(&mut self, local_dir: String, policy: ZmodemDownloadConflictPolicy) -> (r: Result<(), String>)
        ensures
            !(old(self).session matches Some(ZmodemSession::Receiver { .. })) ==> (r matches Err(m)
                && m@ == "zmodem download is not pending"@) && *final(self) == *old(self),
            (old(self).session matches Some(ZmodemSession::Receiver { .. })) ==> r is Ok,
            match old(self).session {
                Some(ZmodemSession::Receiver { progress: a, .. }) => final(self).session matches Some(ZmodemSession::Receiver { progress: b, .. })
                    && download_start_effect(a, b, local_dir, policy),
                _ => true,
            },
            final(self).session is Some <==> old(self).session is Some,
            same_but_session(*old(self), *final(self)),
    {
        let mut session = match self.session.take() {
            Some(s) => s,
            None => {
                return Err(String::from_str("zmodem download is not pending"));
            },
        };
        let r = match &mut session {
            ZmodemSession::Receiver { progress, .. } => {
                progress.start(local_dir, policy);
                Ok(())
            },
            ZmodemSession::Sender { .. } => Err(String::from_str("zmodem download is not pending")),
        };
        self.session = Some(session);
        r
    }

    /// The caller stored `written` bytes of the download file, as it was
    /// asked to: the engine is told, and they are counted. A refusal by the
    /// engine ends the transfer.
    pub fn file_data_written(&mut self, written: usize)
        ensures
            final(self).released_terminal_bytes == old(self).released_terminal_bytes,
            !(old(self).session matches Some(ZmodemSession::Receiver { .. })) ==> *final(self) == *old(self),
            match old(self).session {
                Some(ZmodemSession::Receiver { progress: a, .. }) => {
                    ||| final(self).session matches Some(ZmodemSession::Receiver { progress: b, .. })
                        && download_written_effect(a, b, written as u64) && same_but_session(*old(self), *final(self))
                    ||| exists|m: Seq<char>| #[trigger] failed_from(*old(self), *final(self), "ZMODEM transfer failed: "@ + m)
                },
                _ => true,
            },
    {
        let mut session = match self.session.take() {
            Some(s) => s,
            None => {
                return;
            },
        };
        let failure = match &mut session {
            ZmodemSession::Receiver { engine, progress, .. } => match receiver_file_written(engine, written) {
                Err(e) => Some(e.message),
                Ok(()) => {
                    progress.note_written(written as u64);
                    None
                },
            },
            ZmodemSession::Sender { .. } => None,
        };
        self.session = Some(session);
        match failure {
            Some(message) => {
                assert(state_before_failure(*self) == state_before_failure(*old(self)));
                self.transfer_failed(message.as_str());
                assert(failed_from(*old(self), *self, "ZMODEM transfer failed: "@ + message@));
            },
            None => {},
        }
    }

    /// The caller created the announced file at `target_path`, whose last
    /// component is `file_name`: it is the file being received now.
    pub fn download_file_opened(&mut self, start: FileStart, target_path: String, file_name: Option<String>)
        ensures
            !(old(self).session matches Some(ZmodemSession::Receiver { .. })) ==> *final(self) == *old(self),
            match old(self).session {
                Some(ZmodemSession::Receiver { progress: a, .. }) => final(self).session matches Some(ZmodemSession::Receiver { progress: b, .. })
                    && download_opened_effect(a, b, start, target_path, file_name),
                _ => true,
            },
            final(self).session is Some <==> old(self).session is Some,
            same_but_session(*old(self), *final(self)),
    {
        let mut session = match self.session.take() {
            Some(s) => s,
            None => {
                return;
            },
        };
        match &mut session {
            ZmodemSession::Receiver { progress, .. } => progress.record_file_opened(start, target_path, file_name),
            ZmodemSession::Sender { .. } => {},
        }
        self.session = Some(session);
    }

    /// The channel closed: `mark_transport_closed`, then everything held back
    /// goes to the terminal. No transfer is left running, so what the
    /// scanner held and had not shown is among it.
    pub fn transport_closed(&mut self) -> (r: Vec<u8>)
        ensures
            final(self).session is None,
            final(self).post_session_tail is None,
            r@ == old(self).released_terminal_bytes@ + old(self).scanner@.held.skip(old(self).scanner@.visible as int),
            final(self).scanner@ == (ScanState { held: Seq::empty(), visible: 0, echo_expected: false }),
            final(self).released_terminal_bytes@.len() == 0,
    {
        self.mark_transport_closed();
        self.flush_terminal_bytes()
    }

    /// The user typed, pressed a key or pasted: an upload waiting for the
    /// remote `rz` is given up, and no echo of `rz` is expected any more.
    pub fn note_typed_input(&mut self, pending: &mut Option<PendingInteractiveZmodemUpload>)
        ensures
            *final(pending) is None,
            final(self).scanner@ == (ScanState { echo_expected: false, ..old(self).scanner@ }),
            same_but_scanner(*old(self), *final(self)),
    {
        *pending = None;
        self.note_local_input();
    }

    /// Starts an upload of `local_paths` through the shell at `now`: the
    /// upload waits for the remote `rz`, whose echo is now expected, and the
    /// bytes to type are returned. No files is an error and changes nothing.
    pub fn begin_interactive_upload(&mut self, pending: &mut Option<PendingInteractiveZmodemUpload>, local_paths: Vec<String>, now: u64)
        -> (r: Result<Vec<u8>, InteractiveUploadError>)
        ensures
            local_paths@.len() == 0 ==> r == Err::<Vec<u8>, InteractiveUploadError>(InteractiveUploadError::NoFiles)
                && *final(pending) == *old(pending) && *final(self) == *old(self),
            local_paths@.len() > 0 ==> (r matches Ok(b) && b@ == interactive_rz_upload_command_spec())
                && (*final(pending) matches Some(p) && p.local_paths@ == local_paths@ && p.started_at == now)
                && final(self).scanner@ == (ScanState { echo_expected: true, ..old(self).scanner@ })
                && same_but_scanner(*old(self), *final(self)),
    {
        let r = start_interactive_upload(pending, local_paths, now);
        if r.is_ok() {
            self.note_local_input();
            self.expect_automatic_rz_echo();
        }
        r
    }

    /// An upload started through the shell begins once the dialog waits for
    /// the files of an upload: its paths are handed out, and it no longer
    /// waits. Otherwise nothing changes.
    pub fn take_pending_upload_paths(&self, pending: &mut Option<PendingInteractiveZmodemUpload>) -> (r: Option<Vec<String>>)
        ensures
            ({
                let ready = self.modal_state matches Some(m) && m.direction == ZmodemTransferDirection::Upload
                    && m.phase == ZmodemTransferPhase::AwaitingUploadSelection;
                &&& ready && *old(pending) is Some ==> r == Some(old(pending)->0.local_paths) && *final(pending) is None
                &&& !(ready && *old(pending) is Some) ==> r is None && *final(pending) == *old(pending)
            }),
    {
        let ready = match &self.modal_state {
            Some(m) => m.direction == ZmodemTransferDirection::Upload && m.phase == ZmodemTransferPhase::AwaitingUploadSelection,
            None => false,
        };
        if !ready {
            return None;
        }
        match pending.take() {
            Some(p) => Some(p.local_paths),
            None => None,
        }
    }

    /// A local file operation failed with `message`: the transfer ends.
    pub fn transfer_failed(&mut self, message: &str)
        ensures
            failed_from(*old(self), *final(self), "ZMODEM transfer failed: "@ + message@),
            final(self).released_terminal_bytes == old(self).released_terminal_bytes,
    {
        let text = cat("ZMODEM transfer failed: ", message);
        self.fail_session(text);
    }
}

impl Default for ZmodemController {
    fn default() -> (r: Self)
        ensures
            r.scanner@ == (ScanState { held: Seq::empty(), visible: 0, echo_expected: false }),
            r.session is None,
            r.pending_control_wire is None,
            r.post_session_tail is None,
            r.released_terminal_bytes@.len() == 0,
            r.modal_state is None,
            !r.modal_dirty,
    {
        ZmodemController::new()
    }
}

} // verus!
