//! The decisions of the channel pump that carries remote output to the
//! terminal: which messages form one output batch, how synchronized-output
//! frames are held together, how shell integration markers update the
//! session's shell state, when the surface is redrawn and when memory is
//! trimmed, and the commands that probe the remote host.
//!
//! Times are milliseconds on a monotonic clock that the caller reads; the
//! durations below are in milliseconds too.

use vstd::prelude::*;
use std::collections::VecDeque;
use crate::bytes::{copy_range, ends_with_bytes, extend_range, find_subsequence, first_occurrence, has_suffix,
    lemma_first_occurrence_from, occurs_at};
use crate::shell_integration::{runtime_events_of, runtime_shell_events, RuntimeShellEvents, RuntimeShellEventsView};
use crate::terminal_contracts::TerminalShellIntegrationState;
use crate::text::{cat, cat3};
use crate::zmodem_model::{fresh_state, state_with, ZmodemTransferDirection, ZmodemTransferPhase, ZmodemTransferState};

verus! {

pub const FAST_SURFACE_DIRTY_NOTIFICATION_INTERVAL: u64 = 8;
pub const SURFACE_DIRTY_NOTIFICATION_INTERVAL: u64 = 40;
pub const INPUT_ACTIVE_SURFACE_DIRTY_WINDOW: u64 = 160;
pub const WORKING_SET_TRIM_IDLE_INTERVAL: u64 = 2000;
pub const WORKING_SET_TRIM_MIN_OUTPUT_BYTES: usize = 1048576;
pub const ZMODEM_EXEC_UPLOAD_HANDSHAKE_TIMEOUT: u64 = 4000;
pub const INTERACTIVE_ZMODEM_UPLOAD_HANDSHAKE_TIMEOUT: u64 = 4000;
pub const REMOTE_COMMAND_PROBE_TIMEOUT: u64 = 3000;
pub const REMOTE_CWD_PROBE_TIMEOUT: u64 = 3000;

/// The bytes typed into an interactive shell to start `rz` quietly.
pub open spec fn interactive_rz_upload_command_spec() -> Seq<u8> {
    seq![0x20u8, 0x72, 0x7a, 0x20, 0x2d, 0x71, 0x0d]
}

pub fn interactive_rz_upload_command() -> (r: Vec<u8>)
    ensures
        r@ == interactive_rz_upload_command_spec(),
{
    let r: Vec<u8> = vec![0x20, 0x72, 0x7a, 0x20, 0x2d, 0x71, 0x0d];
    assert(r@ =~= interactive_rz_upload_command_spec());
    r
}

// ---------------------------------------------------------------------------
// Waiting for an interactive `rz`
// ---------------------------------------------------------------------------

/// An upload typed into the shell as `rz`, waiting for the remote side to
/// answer within the handshake window.
#[derive(Debug, Clone, PartialEq, Eq)]
pub struct PendingInteractiveZmodemUpload {
    pub local_paths: Vec<String>,
    pub started_at: u64,
}

impl PendingInteractiveZmodemUpload {
    pub fn new(local_paths: Vec<String>, started_at: u64) -> (r: Self)
        ensures
            r.local_paths@ == local_paths@,
            r.started_at == started_at,
    {
        PendingInteractiveZmodemUpload { local_paths, started_at }
    }

    /// What is left of the handshake window at `now`, zero once it is over.
    pub fn remaining_timeout(&self, now: u64) -> (r: u64)
        ensures
            r == if now <= self.started_at {
                INTERACTIVE_ZMODEM_UPLOAD_HANDSHAKE_TIMEOUT as int
            } else if now - self.started_at >= INTERACTIVE_ZMODEM_UPLOAD_HANDSHAKE_TIMEOUT {
                0
            } else {
                INTERACTIVE_ZMODEM_UPLOAD_HANDSHAKE_TIMEOUT - (now - self.started_at)
            },
    {
        let elapsed = now.saturating_sub(self.started_at);
        match INTERACTIVE_ZMODEM_UPLOAD_HANDSHAKE_TIMEOUT.checked_sub(elapsed) {
            Some(left) => left,
            None => 0,
        }
    }

    pub fn timed_out(&self, now: u64) -> (r: bool)
        ensures
            r == (now >= self.started_at && now - self.started_at >= INTERACTIVE_ZMODEM_UPLOAD_HANDSHAKE_TIMEOUT),
    {
        self.remaining_timeout(now) == 0
    }
}

// ---------------------------------------------------------------------------
// Channel messages and one-shot remote commands
// ---------------------------------------------------------------------------

/// What arrives on an SSH channel, as far as the pump tells messages apart.
#[derive(Debug, Clone, PartialEq, Eq)]
pub enum ChannelMessage {
    Data { data: Vec<u8> },
    ExtendedData { data: Vec<u8>, ext: u32 },
    Eof,
    Close,
    Success,
    Failure,
    ExitStatus { exit_status: u32 },
    ExitSignal { signal_name: String, error_message: String },
    Other,
}

pub open spec fn is_output_message(m: ChannelMessage) -> bool {
    m is Data || m is ExtendedData
}

pub open spec fn message_output_bytes(m: ChannelMessage) -> Seq<u8> {
    match m {
        ChannelMessage::Data { data } => data@,
        ChannelMessage::ExtendedData { data, .. } => data@,
        _ => Seq::empty(),
    }
}

/// The output collected from a remote command run on its own channel.
#[derive(Debug, Clone, PartialEq, Eq)]
pub struct RemoteExecOutput {
    pub exit_status: Option<u32>,
    pub stdout: Vec<u8>,
    pub saw_eof: bool,
    pub exec_accepted: bool,
}

impl Default for RemoteExecOutput {
    fn default() -> (r: Self)
        ensures
            r.exit_status.is_none(),
            r.stdout@.len() == 0,
            !r.saw_eof,
            !r.exec_accepted,
    {
        RemoteExecOutput { exit_status: None, stdout: Vec::new(), saw_eof: false, exec_accepted: false }
    }
}

#[derive(Debug, Clone, PartialEq, Eq)]
pub enum RemoteExecError {
    /// The server refused to run the command.
    Rejected { request_label: String },
    /// The channel ended before the command's exit status arrived.
    MissingExitStatus { request_label: String },
}

impl RemoteExecError {
    pub open spec fn message_spec(&self) -> Seq<char> {
        match self {
            RemoteExecError::Rejected { request_label } =>
                "remote SSH server rejected the "@ + request_label@ + " request"@,
            RemoteExecError::MissingExitStatus { request_label } =>
                request_label@ + " closed without an exit status"@,
        }
    }

    pub fn message(&self) -> (r: String)
        ensures
            r@ == self.message_spec(),
    {
        match self {
            RemoteExecError::Rejected { request_label } =>
                cat3("remote SSH server rejected the ", request_label.as_str(), " request"),
            RemoteExecError::MissingExitStatus { request_label } =>
                cat(request_label.as_str(), " closed without an exit status"),
        }
    }
}

impl RemoteExecOutput {
    /// Records one message; `Ok(true)` when the command's output is complete.
    pub fn push_message(&mut self, message: ChannelMessage, request_label: &str) -> (r: Result<bool, RemoteExecError>)
        ensures
            match message {
                ChannelMessage::Success => r == Ok::<bool, RemoteExecError>(false)
                    && *final(self) == (RemoteExecOutput { exec_accepted: true, ..*old(self) }),
                ChannelMessage::Failure => if old(self).exec_accepted {
                    r == Ok::<bool, RemoteExecError>(false) && *final(self) == *old(self)
                } else {
                    r matches Err(RemoteExecError::Rejected { request_label: l }) && l@ == request_label@
                },
                ChannelMessage::Data { data } => r == Ok::<bool, RemoteExecError>(false)
                    && final(self).stdout@ == old(self).stdout@ + data@
                    && final(self).exit_status == old(self).exit_status
                    && final(self).saw_eof == old(self).saw_eof
                    && final(self).exec_accepted == old(self).exec_accepted,
                ChannelMessage::ExitStatus { exit_status } => r == Ok::<bool, RemoteExecError>(old(self).saw_eof)
                    && *final(self) == (RemoteExecOutput { exit_status: Some(exit_status), ..*old(self) }),
                ChannelMessage::ExitSignal { .. } => r == Ok::<bool, RemoteExecError>(true)
                    && *final(self) == (RemoteExecOutput { exit_status: Some(255u32), ..*old(self) }),
                ChannelMessage::Eof => r == Ok::<bool, RemoteExecError>(old(self).exit_status.is_some())
                    && *final(self) == (RemoteExecOutput { saw_eof: true, ..*old(self) }),
                ChannelMessage::Close => r == Ok::<bool, RemoteExecError>(true) && *final(self) == *old(self),
                _ => r == Ok::<bool, RemoteExecError>(false) && *final(self) == *old(self),
            },
    {
        match message {
            ChannelMessage::Success => {
                self.exec_accepted = true;
            },
            ChannelMessage::Failure => {
                if !self.exec_accepted {
                    return Err(RemoteExecError::Rejected { request_label: String::from_str(request_label) });
                }
            },
            ChannelMessage::Data { data } => {
                extend_range(&mut self.stdout, data.as_slice(), 0, data.len());
                assert(data@.subrange(0, data@.len() as int) =~= data@);
            },
            ChannelMessage::ExitStatus { exit_status } => {
                self.exit_status = Some(exit_status);
                return Ok(self.saw_eof);
            },
            ChannelMessage::ExitSignal { .. } => {
                self.exit_status = Some(255);
                return Ok(true);
            },
            ChannelMessage::Eof => {
                self.saw_eof = true;
                return Ok(self.exit_status.is_some());
            },
            ChannelMessage::Close => {
                return Ok(true);
            },
            _ => {},
        }
        Ok(false)
    }
}

pub fn require_remote_exec_exit_status(exit_status: Option<u32>, request_label: &str) -> (r: Result<u32, RemoteExecError>)
    ensures
        match exit_status {
            Some(s) => r == Ok::<u32, RemoteExecError>(s),
            None => r matches Err(RemoteExecError::MissingExitStatus { request_label: l }) && l@ == request_label@,
        },
{
    match exit_status {
        Some(s) => Ok(s),
        None => Err(RemoteExecError::MissingExitStatus { request_label: String::from_str(request_label) }),
    }
}

pub open spec fn is_command_name_char(c: char) -> bool {
    ('a' <= c && c <= 'z') || ('A' <= c && c <= 'Z') || ('0' <= c && c <= '9') || c == '.' || c == '_' || c == '-'
}

/// A command name that is safe to put into a probe: non-empty, ASCII letters,
/// digits, `.`, `_` and `-` only.
pub open spec fn safe_command_name(name: Seq<char>) -> bool {
    name.len() > 0 && forall|i: int| 0 <= i < name.len() ==> #[trigger] is_command_name_char(name[i])
}

pub fn is_safe_remote_command_name(command_name: &str) -> (r: bool)
    ensures
        r == safe_command_name(command_name@),
{
    let v = crate::text::chars_of(command_name);
    if v.len() == 0 {
        return false;
    }
    let mut i: usize = 0;
    while i < v.len()
        invariant
            i <= v@.len(),
            v@ == command_name@,
            forall|j: int| 0 <= j < i ==> #[trigger] is_command_name_char(v@[j]),
        decreases v.len() - i,
    {
        let c = v[i];
        if !(('a' <= c && c <= 'z') || ('A' <= c && c <= 'Z') || ('0' <= c && c <= '9') || c == '.' || c == '_' || c == '-') {
            assert(!is_command_name_char(v@[i as int]));
            return false;
        }
        i = i + 1;
    }
    true
}

pub open spec fn transfer_path_setup_text() -> Seq<char> {
    "PATH=\"${PATH:-}${HOME:+:$HOME/.local/bin:$HOME/bin}:/usr/local/sbin:/usr/local/bin:/usr/sbin:/usr/bin:/sbin:/bin\"; export PATH"@
}

/// A `PATH` that also covers the usual install locations of transfer tools.
pub fn remote_transfer_path_setup() -> (r: &'static str)
    ensures
        r@ == transfer_path_setup_text(),
{
    "PATH=\"${PATH:-}${HOME:+:$HOME/.local/bin:$HOME/bin}:/usr/local/sbin:/usr/local/bin:/usr/sbin:/usr/bin:/sbin:/bin\"; export PATH"
}

/// Each `'` of `s` written as `'\''`.
pub open spec fn escape_single_quotes(s: Seq<char>) -> Seq<char>
    decreases s.len(),
{
    if s.len() == 0 {
        Seq::empty()
    } else {
        escape_single_quotes(s.drop_last()) + (if s.last() == '\'' { "'\\''"@ } else { seq![s.last()] })
    }
}

/// `value` as one POSIX shell word.
pub open spec fn shell_quoted(value: Seq<char>) -> Seq<char> {
    "'"@ + escape_single_quotes(value) + "'"@
}

pub fn shell_quote_posix(value: &str) -> (r: String)
    ensures
        r@ == shell_quoted(value@),
{
    let v = crate::text::chars_of(value);
    let mut body = String::new();
    let mut i: usize = 0;
    while i < v.len()
        invariant
            i <= v@.len(),
            v@ == value@,
            body@ == escape_single_quotes(value@.take(i as int)),
        decreases v.len() - i,
    {
        let c = v[i];
        let ghost before = body@;
        if c == '\'' {
            body.append("'\\''");
        } else {
            crate::format::push_char(&mut body, c);
        }
        assert(value@.take(i + 1).drop_last() =~= value@.take(i as int));
        i = i + 1;
    }
    assert(value@.take(i as int) =~= value@);
    cat3("'", body.as_str(), "'")
}

pub open spec fn command_probe_text(command_name: Seq<char>) -> Seq<char> {
    "__mica_term_probe_command="@ + shell_quoted(command_name) + "; "@ + transfer_path_setup_text()
        + "; command -v \"$__mica_term_probe_command\" >/dev/null 2>&1"@
}

/// A command that succeeds when `command_name` can be run on the remote host.
pub fn remote_command_probe_command(command_name: &str) -> (r: String)
    ensures
        r@ == command_probe_text(command_name@),
{
    let quoted = shell_quote_posix(command_name);
    let mut r = String::from_str("__mica_term_probe_command=");
    r.append(quoted.as_str());
    r.append("; ");
    r.append(remote_transfer_path_setup());
    r.append("; command -v \"$__mica_term_probe_command\" >/dev/null 2>&1");
    r
}

pub open spec fn exec_upload_command_text(remote_dir: Seq<char>) -> Seq<char> {
    transfer_path_setup_text() + "; cd "@ + shell_quoted(remote_dir) + " && rz -q"@
}

/// The command that receives an upload into `remote_dir` on its own channel.
pub fn zmodem_exec_upload_command(remote_dir: &str) -> (r: String)
    ensures
        r@ == exec_upload_command_text(remote_dir@),
{
    let quoted = shell_quote_posix(remote_dir);
    let mut r = String::from_str(remote_transfer_path_setup());
    r.append("; cd ");
    r.append(quoted.as_str());
    r.append(" && rz -q");
    r
}

pub fn failed_zmodem_upload_state(error_text: String) -> (r: ZmodemTransferState)
    ensures
        state_with(
            r,
            ZmodemTransferDirection::Upload,
            ZmodemTransferPhase::Failed,
            "ZMODEM Upload"@,
            "Upload failed"@,
            "The drag upload could not be completed with rz."@,
            Seq::empty(),
            error_text@,
        ),
{
    proof { reveal_strlit(""); }
    assert(""@ =~= Seq::<char>::empty());
    let mut state = ZmodemTransferState::new(
        ZmodemTransferDirection::Upload,
        ZmodemTransferPhase::Failed,
        "ZMODEM Upload",
        "Upload failed",
        "The drag upload could not be completed with rz.",
        "",
    );
    state.error_text = error_text;
    state
}

pub fn cancelled_zmodem_upload_state() -> (r: ZmodemTransferState)
    ensures
        fresh_state(
            r,
            ZmodemTransferDirection::Upload,
            ZmodemTransferPhase::Cancelled,
            "ZMODEM Upload"@,
            "Upload cancelled"@,
            "The transfer was cancelled before all files were sent."@,
            "The remote shell was told to abort the ZMODEM session."@,
        ),
{
    ZmodemTransferState::new(
        ZmodemTransferDirection::Upload,
        ZmodemTransferPhase::Cancelled,
        "ZMODEM Upload",
        "Upload cancelled",
        "The transfer was cancelled before all files were sent.",
        "The remote shell was told to abort the ZMODEM session.",
    )
}

// ---------------------------------------------------------------------------
// Uploads started by typing `rz` into the shell
// ---------------------------------------------------------------------------

#[derive(Debug, Clone, PartialEq, Eq)]
pub enum InteractiveUploadError {
    /// An upload needs at least one file.
    NoFiles,
}

impl InteractiveUploadError {
    pub fn message(&self) -> (r: &'static str)
        ensures
            r@ == "zmodem upload requires at least one local file"@,
    {
        "zmodem upload requires at least one local file"
    }
}

/// Starting an upload of `local_paths` through the shell at `now`: the bytes
/// to type (this program's `rz` command), with the upload then awaiting the
/// remote handshake; no files is an error and changes nothing.
pub fn start_interactive_upload(pending: &mut Option<PendingInteractiveZmodemUpload>, local_paths: Vec<String>, now: u64)
    -> (r: Result<Vec<u8>, InteractiveUploadError>)
    ensures
        local_paths@.len() == 0 ==> r == Err::<Vec<u8>, InteractiveUploadError>(InteractiveUploadError::NoFiles)
            && *final(pending) == *old(pending),
        local_paths@.len() > 0 ==> (r matches Ok(b) && b@ == interactive_rz_upload_command_spec())
            && (*final(pending) matches Some(p) && p.local_paths@ == local_paths@ && p.started_at == now),
{
    if local_paths.len() == 0 {
        return Err(InteractiveUploadError::NoFiles);
    }
    *pending = Some(PendingInteractiveZmodemUpload::new(local_paths, now));
    Ok(interactive_rz_upload_command())
}

/// The timer of a pending upload fired at `now`: once the handshake window
/// is over the upload is given up, and the failed state to show is returned;
/// before that nothing changes.
pub fn interactive_upload_timer_fired(pending: &mut Option<PendingInteractiveZmodemUpload>, now: u64)
    -> (r: Option<ZmodemTransferState>)
    ensures
        match *old(pending) {
            Some(p) => if now >= p.started_at && now - p.started_at >= INTERACTIVE_ZMODEM_UPLOAD_HANDSHAKE_TIMEOUT {
                &&& final(pending).is_none()
                &&& r matches Some(st) && state_with(st, ZmodemTransferDirection::Upload, ZmodemTransferPhase::Failed,
                    "ZMODEM Upload"@, "Upload failed"@, "The drag upload could not be completed with rz."@, Seq::empty(),
                    "remote rz did not emit a ZMODEM upload handshake after the interactive fallback command"@)
            } else {
                *final(pending) == *old(pending) && r is None
            },
            None => final(pending).is_none() && r is None,
        },
{
    let timed_out = match pending {
        Some(p) => p.timed_out(now),
        None => false,
    };
    if !timed_out {
        return None;
    }
    *pending = None;
    Some(failed_zmodem_upload_state(String::from_str(
        "remote rz did not emit a ZMODEM upload handshake after the interactive fallback command",
    )))
}

// ---------------------------------------------------------------------------
// Output batches
// ---------------------------------------------------------------------------

#[derive(Debug, Clone, PartialEq, Eq)]
pub struct ReadyOutputBatch {
    pub raw_bytes: Vec<u8>,
    pub chunk_count: usize,
}

/// How many messages at the front of `msgs` carry output.
pub open spec fn leading_output_count(msgs: Seq<ChannelMessage>) -> nat
    decreases msgs.len(),
{
    if msgs.len() > 0 && is_output_message(msgs[0]) {
        1 + leading_output_count(msgs.drop_first())
    } else {
        0
    }
}

/// The output bytes of the first `k` messages, in order.
pub open spec fn output_of_first(msgs: Seq<ChannelMessage>, k: int) -> Seq<u8>
    decreases k,
{
    if k <= 0 || msgs.len() == 0 {
        Seq::empty()
    } else {
        output_of_first(msgs, k - 1) + message_output_bytes(msgs[k - 1])
    }
}

proof fn lemma_leading_output_count(msgs: Seq<ChannelMessage>, k: int)
    requires
        0 <= k <= msgs.len(),
        forall|j: int| 0 <= j < k ==> is_output_message(#[trigger] msgs[j]),
        k == msgs.len() || !is_output_message(msgs[k]),
    ensures
        leading_output_count(msgs) == k,
    decreases k,
{
    if k > 0 {
        assert forall|j: int| 0 <= j < k - 1 implies is_output_message(#[trigger] msgs.drop_first()[j]) by {
            assert(msgs.drop_first()[j] == msgs[j + 1]);
        }
        if k < msgs.len() {
            assert(msgs.drop_first()[k - 1] == msgs[k]);
        }
        lemma_leading_output_count(msgs.drop_first(), k - 1);
    }
}

/// Takes `first` and the output messages that directly follow it in
/// `backlog` as one batch; a first message that carries no output goes back
/// to the front of the backlog.
pub fn take_contiguous_output_messages(first_message: ChannelMessage, backlog: &mut VecDeque<ChannelMessage>)
    -> (r: ReadyOutputBatch)
    requires
        old(backlog)@.len() < usize::MAX,
    ensures
        ({
            let msgs = seq![first_message] + old(backlog)@;
            let k = leading_output_count(msgs);
            &&& r.chunk_count == k
            &&& r.raw_bytes@ == output_of_first(msgs, k as int)
            &&& final(backlog)@ == msgs.skip(k as int)
        }),
{
    let ghost msgs = seq![first_message] + backlog@;
    let mut raw_bytes: Vec<u8> = Vec::new();
    let mut count: usize = 0;
    let mut message = first_message;
    assert(backlog@ =~= msgs.skip(1));
    loop
        invariant
            msgs == seq![first_message] + old(backlog)@,
            count < msgs.len(),
            msgs.len() <= usize::MAX,
            message == msgs[count as int],
            backlog@ == msgs.skip(count + 1),
            forall|j: int| 0 <= j < count ==> is_output_message(#[trigger] msgs[j]),
            raw_bytes@ == output_of_first(msgs, count as int),
        decreases msgs.len() - count,
    {
        let is_output = match &message {
            ChannelMessage::Data { .. } | ChannelMessage::ExtendedData { .. } => true,
            _ => false,
        };
        if !is_output {
            backlog.push_front(message);
            proof {
                assert(backlog@ =~= msgs.skip(count as int));
                assert(!is_output_message(msgs[count as int]));
                lemma_leading_output_count(msgs, count as int);
            }
            return ReadyOutputBatch { raw_bytes, chunk_count: count };
        }
        match &message {
            ChannelMessage::Data { data } => {
                extend_range(&mut raw_bytes, data.as_slice(), 0, data.len());
                assert(data@.subrange(0, data@.len() as int) =~= data@);
            },
            ChannelMessage::ExtendedData { data, .. } => {
                extend_range(&mut raw_bytes, data.as_slice(), 0, data.len());
                assert(data@.subrange(0, data@.len() as int) =~= data@);
            },
            _ => {},
        }
        count = count + 1;
        let next_is_output = backlog.len() > 0 && match &backlog[0] {
            ChannelMessage::Data { .. } | ChannelMessage::ExtendedData { .. } => true,
            _ => false,
        };
        if !next_is_output {
            proof {
                if count < msgs.len() {
                    assert(msgs[count as int] == backlog@[0]);
                }
                lemma_leading_output_count(msgs, count as int);
            }
            return ReadyOutputBatch { raw_bytes, chunk_count: count };
        }
        let next = backlog.pop_front();
        match next {
            Some(m) => {
                message = m;
            },
            None => {
                return ReadyOutputBatch { raw_bytes, chunk_count: count };
            },
        }
        assert(backlog@ =~= msgs.skip(count + 1));
    }
}

// ---------------------------------------------------------------------------
// Shell integration state
// ---------------------------------------------------------------------------

/// The shell state after the markers of one batch, applied in the order
/// prompt start, prompt end, command start, command finish.
pub open spec fn shell_state_after(s: TerminalShellIntegrationState, p: RuntimeShellEventsView) -> TerminalShellIntegrationState {
    let s1 = if p.prompt_started {
        TerminalShellIntegrationState { has_markers: true, input_active: false, command_running: false, ..s }
    } else {
        s
    };
    let s2 = if p.prompt_ended {
        TerminalShellIntegrationState { has_markers: true, input_active: true, command_running: false, ..s1 }
    } else {
        s1
    };
    let s3 = if p.command_started {
        TerminalShellIntegrationState { has_markers: true, input_active: false, command_running: true, ..s2 }
    } else {
        s2
    };
    if p.command_finished {
        TerminalShellIntegrationState {
            has_markers: true,
            input_active: false,
            command_running: false,
            last_command_exit_code: p.command_finish_exit_code,
        }
    } else {
        s3
    }
}

/// The last marker of a batch decides where the shell stands: a finished
/// command leaves nothing running and no input open and records its exit
/// code; else a started command is running; else an ended prompt takes
/// input; else a started prompt does neither. A batch without markers
/// changes nothing, one with any marks the session as reporting them, and
/// only a finished command touches the last exit code.
pub proof fn lemma_shell_state_after_last_marker(s: TerminalShellIntegrationState, p: RuntimeShellEventsView)
    ensures
        ({
            let n = shell_state_after(s, p);
            let any = p.prompt_started || p.prompt_ended || p.command_started || p.command_finished;
            &&& n.has_markers == (s.has_markers || any)
            &&& p.command_finished ==> !n.command_running && !n.input_active
                && n.last_command_exit_code == p.command_finish_exit_code
            &&& !p.command_finished ==> n.last_command_exit_code == s.last_command_exit_code
            &&& !p.command_finished && p.command_started ==> n.command_running && !n.input_active
            &&& !p.command_finished && !p.command_started && p.prompt_ended ==> !n.command_running && n.input_active
            &&& !p.command_finished && !p.command_started && !p.prompt_ended && p.prompt_started
                ==> !n.command_running && !n.input_active
            &&& !any ==> n == s
        }),
{
}

/// Applies a batch's markers to `state`; says whether the state changed.
pub fn apply_shell_integration_events(state: &mut TerminalShellIntegrationState, parsed: &RuntimeShellEvents) -> (r: bool)
    ensures
        *final(state) == shell_state_after(*old(state), parsed@),
        r == (*final(state) != *old(state)),
        parsed.command_finished ==> !final(state).command_running && !final(state).input_active
            && final(state).has_markers && final(state).last_command_exit_code == parsed.command_finish_exit_code,
        !parsed.command_finished && parsed.command_started ==> final(state).command_running
            && !final(state).input_active,
        !parsed.command_finished ==> final(state).last_command_exit_code == old(state).last_command_exit_code,
{
    proof {
        lemma_shell_state_after_last_marker(*old(state), parsed@);
    }
    let before = *state;
    if parsed.prompt_started {
        state.has_markers = true;
        state.input_active = false;
        state.command_running = false;
    }
    if parsed.prompt_ended {
        state.has_markers = true;
        state.input_active = true;
        state.command_running = false;
    }
    if parsed.command_started {
        state.has_markers = true;
        state.input_active = false;
        state.command_running = true;
    }
    if parsed.command_finished {
        state.has_markers = true;
        state.input_active = false;
        state.command_running = false;
        state.last_command_exit_code = parsed.command_finish_exit_code;
    }
    *state != before
}

#[derive(Debug, Clone, PartialEq, Eq)]
pub struct ParsedOutputBatch {
    pub sanitized_bytes: Vec<u8>,
    pub cwd: Option<String>,
    pub next_shell_state: TerminalShellIntegrationState,
    pub shell_integration_changed: bool,
}

pub open spec fn concat_chunks(chunks: Seq<&[u8]>) -> Seq<u8>
    decreases chunks.len(),
{
    if chunks.len() == 0 {
        Seq::empty()
    } else {
        concat_chunks(chunks.drop_last()) + chunks.last()@
    }
}

/// Reads the chunks of one batch as one run of output.
pub fn parse_output_chunks(initial_shell_state: TerminalShellIntegrationState, chunks: &[&[u8]]) -> (r: ParsedOutputBatch)
    ensures
        ({
            let p = runtime_events_of(concat_chunks(chunks@));
            &&& r.sanitized_bytes@ == p.sanitized_bytes
            &&& (match r.cwd {
                Some(c) => p.cwd == Some(c@),
                None => p.cwd is None,
            })
            &&& r.next_shell_state == shell_state_after(initial_shell_state, p)
            &&& r.shell_integration_changed == (r.next_shell_state != initial_shell_state)
            &&& p.command_finished ==> !r.next_shell_state.command_running && !r.next_shell_state.input_active
                && r.next_shell_state.has_markers
                && r.next_shell_state.last_command_exit_code == p.command_finish_exit_code
            &&& !p.command_finished && p.command_started ==> r.next_shell_state.command_running
                && !r.next_shell_state.input_active
        }),
{
    let mut merged: Vec<u8> = Vec::new();
    let mut i: usize = 0;
    while i < chunks.len()
        invariant
            i <= chunks@.len(),
            merged@ == concat_chunks(chunks@.take(i as int)),
        decreases chunks.len() - i,
    {
        let chunk: &[u8] = chunks[i];
        extend_range(&mut merged, chunk, 0, chunk.len());
        assert(chunk@.subrange(0, chunk@.len() as int) =~= chunk@);
        assert(chunks@.take(i + 1).drop_last() =~= chunks@.take(i as int));
        i = i + 1;
    }
    assert(chunks@.take(i as int) =~= chunks@);
    let parsed = runtime_shell_events(merged.as_slice());
    let mut next_shell_state = initial_shell_state;
    let changed = apply_shell_integration_events(&mut next_shell_state, &parsed);
    ParsedOutputBatch {
        sanitized_bytes: parsed.sanitized_bytes,
        cwd: parsed.cwd,
        next_shell_state,
        shell_integration_changed: changed,
    }
}

// ---------------------------------------------------------------------------
// Synchronized output
// ---------------------------------------------------------------------------

/// `ESC [ ? 2026 h`: the terminal should hold the frame until the end marker.
pub open spec fn sync_output_start() -> Seq<u8> {
    seq![0x1bu8, 0x5b, 0x3f, 0x32, 0x30, 0x32, 0x36, 0x68]
}

/// `ESC [ ? 2026 l`: the end of a synchronized frame.
pub open spec fn sync_output_end() -> Seq<u8> {
    seq![0x1bu8, 0x5b, 0x3f, 0x32, 0x30, 0x32, 0x36, 0x6c]
}

pub fn sync_output_start_bytes() -> (r: Vec<u8>)
    ensures
        r@ == sync_output_start(),
{
    let r: Vec<u8> = vec![0x1b, 0x5b, 0x3f, 0x32, 0x30, 0x32, 0x36, 0x68];
    assert(r@ =~= sync_output_start());
    r
}

pub fn sync_output_end_bytes() -> (r: Vec<u8>)
    ensures
        r@ == sync_output_end(),
{
    let r: Vec<u8> = vec![0x1b, 0x5b, 0x3f, 0x32, 0x30, 0x32, 0x36, 0x6c];
    assert(r@ =~= sync_output_end());
    r
}

/// The longest proper prefix of `m`, no longer than `k`, that ends `b`.
pub open spec fn partial_suffix_from(b: Seq<u8>, m: Seq<u8>, k: int) -> int
    decreases k,
{
    if k <= 0 {
        0
    } else if has_suffix(b, m.take(k)) {
        k
    } else {
        partial_suffix_from(b, m, k - 1)
    }
}

/// The length of the longest proper prefix of `marker` that ends `b`, the
/// part of a marker that the next bytes may complete.
pub open spec fn partial_marker_suffix(b: Seq<u8>, marker: Seq<u8>) -> int {
    let limit = if marker.len() == 0 { 0 } else { marker.len() - 1 };
    partial_suffix_from(b, marker, if b.len() < limit { b.len() as int } else { limit as int })
}

pub proof fn lemma_partial_suffix_bound(b: Seq<u8>, m: Seq<u8>, k: int)
    ensures
        0 <= partial_suffix_from(b, m, k),
        k >= 0 ==> partial_suffix_from(b, m, k) <= k,
    decreases k,
{
    if k > 0 && !has_suffix(b, m.take(k)) {
        lemma_partial_suffix_bound(b, m, k - 1);
    }
}

pub fn partial_marker_suffix_len(bytes: &[u8], marker: &[u8]) -> (r: usize)
    ensures
        r == partial_marker_suffix(bytes@, marker@),
        r <= bytes@.len(),
{
    let limit = marker.len().saturating_sub(1);
    let max_suffix = if bytes.len() < limit { bytes.len() } else { limit };
    let mut k = max_suffix;
    proof { lemma_partial_suffix_bound(bytes@, marker@, max_suffix as int); }
    while k > 0
        invariant
            k <= max_suffix,
            max_suffix <= bytes@.len(),
            max_suffix <= marker@.len(),
            partial_marker_suffix(bytes@, marker@) == partial_suffix_from(bytes@, marker@, k as int),
        decreases k,
    {
        let head = vstd::slice::slice_subrange(marker, 0, k);
        assert(head@ =~= marker@.take(k as int));
        if ends_with_bytes(bytes, head) {
            return k;
        }
        k = k - 1;
    }
    0
}

/// Splitting `s` into what can be shown now and what must wait: outside a
/// synchronized frame, everything but a possible start of the start marker
/// goes out; a frame goes out whole, from its start marker to its end marker.
/// Gives the batches in order, what is held back, and whether a frame is open.
pub open spec fn sync_frames(s: Seq<u8>, active: bool) -> (Seq<Seq<u8>>, Seq<u8>, bool)
    decreases s.len(), (if active { 0int } else { 1int }),
{
    if !active {
        match first_occurrence(s, sync_output_start()) {
            None => {
                let keep = partial_marker_suffix(s, sync_output_start());
                let emit = s.take(s.len() - keep);
                (if emit.len() > 0 { seq![emit] } else { Seq::empty() }, s.skip(s.len() - keep), false)
            },
            Some(p) => {
                proof { lemma_first_occurrence_from(s, sync_output_start(), 0); }
                let (b, r, a) = sync_frames(s.skip(p), true);
                (if p > 0 { seq![s.take(p)] + b } else { b }, r, a)
            },
        }
    } else {
        match first_occurrence(s, sync_output_end()) {
            None => (Seq::empty(), s, true),
            Some(q) => {
                proof { lemma_first_occurrence_from(s, sync_output_end(), 0); }
                let e = q + sync_output_end().len();
                let (b, r, a) = sync_frames(s.skip(e), false);
                (seq![s.take(e)] + b, r, a)
            },
        }
    }
}

/// One batch in front of others flattens to that batch in front of the rest.
proof fn lemma_flatten_cons(x: Seq<u8>, b: Seq<Seq<u8>>)
    ensures
        (seq![x] + b).flatten() == x + b.flatten(),
{
    let c = seq![x] + b;
    assert(c.first() == x);
    assert(c.drop_first() =~= b);
}

/// Batching loses, adds and reorders no byte: the batches that go out,
/// followed by what is held back, are exactly the bytes that came in.
pub proof fn lemma_sync_frames_keep_every_byte(s: Seq<u8>, active: bool)
    ensures
        ({
            let (b, r, a) = sync_frames(s, active);
            b.flatten() + r == s
        }),
    decreases s.len(), (if active { 0int } else { 1int }),
{
    if !active {
        match first_occurrence(s, sync_output_start()) {
            None => {
                let limit = sync_output_start().len() - 1;
                lemma_partial_suffix_bound(s, sync_output_start(), if s.len() < limit { s.len() as int } else { limit as int });
                let keep = partial_marker_suffix(s, sync_output_start());
                let emit = s.take(s.len() - keep);
                if emit.len() > 0 {
                    lemma_flatten_cons(emit, Seq::empty());
                    assert(Seq::<Seq<u8>>::empty().flatten() =~= Seq::<u8>::empty());
                } else {
                    assert(Seq::<Seq<u8>>::empty().flatten() =~= Seq::<u8>::empty());
                }
                assert(emit + s.skip(s.len() - keep) =~= s);
                assert(emit + Seq::<u8>::empty() =~= emit);
            },
            Some(p) => {
                lemma_first_occurrence_from(s, sync_output_start(), 0);
                lemma_sync_frames_keep_every_byte(s.skip(p), true);
                let (b, r, a) = sync_frames(s.skip(p), true);
                if p > 0 {
                    lemma_flatten_cons(s.take(p), b);
                    assert(s.take(p) + (b.flatten() + r) =~= s);
                } else {
                    assert(s.skip(0) =~= s);
                }
            },
        }
    } else {
        match first_occurrence(s, sync_output_end()) {
            None => {
                assert(Seq::<Seq<u8>>::empty().flatten() =~= Seq::<u8>::empty());
                assert(Seq::<u8>::empty() + s =~= s);
            },
            Some(q) => {
                lemma_first_occurrence_from(s, sync_output_end(), 0);
                let e = q + sync_output_end().len();
                lemma_sync_frames_keep_every_byte(s.skip(e), false);
                let (b, r, a) = sync_frames(s.skip(e), false);
                lemma_flatten_cons(s.take(e), b);
                assert(s.take(e) + (b.flatten() + r) =~= s);
            },
        }
    }
}

pub open spec fn batches_view(v: Seq<Vec<u8>>) -> Seq<Seq<u8>> {
    v.map_values(|b: Vec<u8>| b@)
}

/// Holds synchronized-output frames together across chunks.
#[derive(Debug)]
pub struct SynchronizedOutputBatcher {
    plain_buffer: Vec<u8>,
    sync_buffer: Vec<u8>,
    sync_active: bool,
}

impl SynchronizedOutputBatcher {
    /// Only the buffer of the current mode holds bytes.
    pub closed spec fn wf(&self) -> bool {
        if self.sync_active { self.plain_buffer@.len() == 0 } else { self.sync_buffer@.len() == 0 }
    }

    /// The bytes held back.
    pub closed spec fn pending(&self) -> Seq<u8> {
        if self.sync_active { self.sync_buffer@ } else { self.plain_buffer@ }
    }

    pub closed spec fn in_frame(&self) -> bool {
        self.sync_active
    }

    pub fn new() -> (r: Self)
        ensures
            r.wf(),
            r.pending().len() == 0,
            !r.in_frame(),
    {
        SynchronizedOutputBatcher { plain_buffer: Vec::new(), sync_buffer: Vec::new(), sync_active: false }
    }

    /// Takes more output; gives the batches that are ready to be shown.
    pub fn push_bytes(&mut self, bytes: &[u8]) -> (r: Vec<Vec<u8>>)
        requires
            old(self).wf(),
        ensures
            final(self).wf(),
            ({
                let (b, rest, a) = sync_frames(old(self).pending() + bytes@, old(self).in_frame());
                &&& batches_view(r@) == b
                &&& final(self).pending() == rest
                &&& final(self).in_frame() == a
            }),
            batches_view(r@).flatten() + final(self).pending() == old(self).pending() + bytes@,
    {
        proof { lemma_sync_frames_keep_every_byte(old(self).pending() + bytes@, old(self).in_frame()); }
        let mut buf: Vec<u8> = Vec::new();
        if self.sync_active {
            std::mem::swap(&mut buf, &mut self.sync_buffer);
        } else {
            std::mem::swap(&mut buf, &mut self.plain_buffer);
        }
        extend_range(&mut buf, bytes, 0, bytes.len());
        assert(bytes@.subrange(0, bytes@.len() as int) =~= bytes@);
        let ghost total = buf@;
        let ghost a0 = self.sync_active;
        let mut active = self.sync_active;
        let mut out: Vec<Vec<u8>> = Vec::new();
        let start = sync_output_start_bytes();
        let end = sync_output_end_bytes();
        loop
            invariant_except_break
                ({
                    let (b0, r0, a0f) = sync_frames(total, a0);
                    let (b1, r1, a1) = sync_frames(buf@, active);
                    b0 == batches_view(out@) + b1 && r0 == r1 && a0f == a1
                }),
            invariant
                start@ == sync_output_start(),
                end@ == sync_output_end(),
            ensures
                sync_frames(total, a0) == (batches_view(out@), buf@, active),
            decreases buf@.len(), (if active { 0int } else { 1int }),
        {
            let ghost before = buf@;
            let n = buf.len();
            if !active {
                match find_subsequence(buf.as_slice(), start.as_slice()) {
                    None => {
                        let keep = partial_marker_suffix_len(buf.as_slice(), start.as_slice());
                        let emit_len = n - keep;
                        let ghost emitted = out@;
                        if emit_len > 0 {
                            out.push(copy_range(buf.as_slice(), 0, emit_len));
                            assert(batches_view(out@) =~= batches_view(emitted).push(before.take(emit_len as int)));
                        }
                        let rest = copy_range(buf.as_slice(), emit_len, n);
                        proof {
                            assert(rest@ =~= before.skip(emit_len as int));
                            let (b1, r1, a1) = sync_frames(before, false);
                            if emit_len > 0 {
                                assert(b1 =~= seq![before.take(emit_len as int)]);
                                assert(batches_view(out@) + Seq::<Seq<u8>>::empty() =~= batches_view(emitted) + b1);
                            } else {
                                assert(b1 =~= Seq::<Seq<u8>>::empty());
                                assert(batches_view(out@) =~= batches_view(emitted) + b1);
                            }
                        }
                        buf = rest;
                        break;
                    },
                    Some(p) => {
                        proof { lemma_first_occurrence_from(before, sync_output_start(), 0); }
                        let ghost emitted = out@;
                        if p > 0 {
                            out.push(copy_range(buf.as_slice(), 0, p));
                        }
                        let rest = copy_range(buf.as_slice(), p, n);
                        proof {
                            assert(rest@ =~= before.skip(p as int));
                            let (b2, r2, a2) = sync_frames(rest@, true);
                            if p > 0 {
                                assert(batches_view(out@) =~= batches_view(emitted).push(before.take(p as int)));
                                assert(batches_view(emitted) + (seq![before.take(p as int)] + b2)
                                    =~= batches_view(out@) + b2);
                            } else {
                                assert(batches_view(out@) =~= batches_view(emitted));
                            }
                        }
                        buf = rest;
                        active = true;
                    },
                }
            } else {
                match find_subsequence(buf.as_slice(), end.as_slice()) {
                    None => {
                        proof {
                            assert(batches_view(out@) + Seq::<Seq<u8>>::empty() =~= batches_view(out@));
                        }
                        break;
                    },
                    Some(q) => {
                        proof { lemma_first_occurrence_from(before, sync_output_end(), 0); }
                        let e = q + 8;
                        let ghost emitted = out@;
                        out.push(copy_range(buf.as_slice(), 0, e));
                        let rest = copy_range(buf.as_slice(), e, n);
                        proof {
                            assert(rest@ =~= before.skip(e as int));
                            let (b2, r2, a2) = sync_frames(rest@, false);
                            assert(batches_view(out@) =~= batches_view(emitted).push(before.take(e as int)));
                            assert(batches_view(emitted) + (seq![before.take(e as int)] + b2)
                                =~= batches_view(out@) + b2);
                        }
                        buf = rest;
                        active = false;
                    },
                }
            }
        }
        self.sync_active = active;
        if active {
            self.sync_buffer = buf;
            self.plain_buffer = Vec::new();
        } else {
            self.plain_buffer = buf;
            self.sync_buffer = Vec::new();
        }
        out
    }

    /// Gives up waiting: the held-back bytes, if any, go out as they are.
    pub fn finish(&mut self) -> (r: Option<Vec<u8>>)
        requires
            old(self).wf(),
        ensures
            final(self).wf(),
            final(self).pending().len() == 0,
            !final(self).in_frame(),
            match r {
                Some(b) => old(self).pending().len() > 0 && b@ == old(self).pending(),
                None => old(self).pending().len() == 0,
            },
    {
        let mut taken: Vec<u8> = Vec::new();
        if self.sync_active {
            self.sync_active = false;
            std::mem::swap(&mut taken, &mut self.sync_buffer);
        } else {
            std::mem::swap(&mut taken, &mut self.plain_buffer);
        }
        if taken.len() == 0 {
            None
        } else {
            Some(taken)
        }
    }
}

impl Default for SynchronizedOutputBatcher {
    fn default() -> (r: Self)
        ensures
            r.wf(),
            r.pending().len() == 0,
            !r.in_frame(),
    {
        SynchronizedOutputBatcher::new()
    }
}

// ---------------------------------------------------------------------------
// Redraw notifications and memory trimming
// ---------------------------------------------------------------------------

/// Coalesces surface redraw notifications: one pending notification at a
/// time, sent faster while the user is typing.
#[derive(Debug, Clone, PartialEq, Eq)]
pub struct SurfaceDirtyNotifier {
    pub dirty: bool,
    pub notification_armed: bool,
    pub input_active_until: Option<u64>,
}

impl Default for SurfaceDirtyNotifier {
    fn default() -> (r: Self)
        ensures
            r == (SurfaceDirtyNotifier { dirty: false, notification_armed: false, input_active_until: None }),
    {
        SurfaceDirtyNotifier { dirty: false, notification_armed: false, input_active_until: None }
    }
}

impl SurfaceDirtyNotifier {
    /// The notifier once output has been noted.
    pub open spec fn after_output(self) -> Self {
        SurfaceDirtyNotifier { dirty: true, notification_armed: true, ..self }
    }

    /// The notifier once its notification has fired or been taken.
    pub open spec fn after_flush(self) -> Self {
        SurfaceDirtyNotifier { dirty: false, notification_armed: false, ..self }
    }

    pub open spec fn preferred_interval_spec(&self, now: u64) -> u64 {
        match self.input_active_until {
            Some(deadline) => if deadline > now {
                FAST_SURFACE_DIRTY_NOTIFICATION_INTERVAL
            } else {
                SURFACE_DIRTY_NOTIFICATION_INTERVAL
            },
            None => SURFACE_DIRTY_NOTIFICATION_INTERVAL,
        }
    }

    pub fn note_local_input(&mut self, now: u64)
        requires
            now + INPUT_ACTIVE_SURFACE_DIRTY_WINDOW <= u64::MAX,
        ensures
            *final(self) == (SurfaceDirtyNotifier {
                input_active_until: Some((now + INPUT_ACTIVE_SURFACE_DIRTY_WINDOW) as u64),
                ..*old(self)
            }),
    {
        self.input_active_until = Some(now + INPUT_ACTIVE_SURFACE_DIRTY_WINDOW);
    }

    pub fn preferred_interval(&self, now: u64) -> (r: u64)
        ensures
            r == self.preferred_interval_spec(now),
    {
        match self.input_active_until {
            Some(deadline) => if deadline > now {
                FAST_SURFACE_DIRTY_NOTIFICATION_INTERVAL
            } else {
                SURFACE_DIRTY_NOTIFICATION_INTERVAL
            },
            None => SURFACE_DIRTY_NOTIFICATION_INTERVAL,
        }
    }

    /// Notes new output; says whether a notification must be armed, and how soon it should fire.
    pub fn record_output(&mut self, now: u64) -> (r: (bool, u64))
        ensures
            r == (!old(self).notification_armed, old(self).preferred_interval_spec(now)),
            *final(self) == old(self).after_output(),
    {
        self.dirty = true;
        let should_arm = !self.notification_armed;
        self.notification_armed = true;
        (should_arm, self.preferred_interval(now))
    }

    /// The armed notification fired; says whether there is output to show.
    pub fn flush_due(&mut self) -> (r: bool)
        ensures
            r == old(self).dirty,
            *final(self) == old(self).after_flush(),
    {
        self.notification_armed = false;
        if self.dirty {
            self.dirty = false;
            true
        } else {
            false
        }
    }

    /// Takes the pending notification, if any, before the timer fires.
    pub fn take_pending(&mut self) -> (r: bool)
        ensures
            r == old(self).dirty,
            *final(self) == old(self).after_flush(),
    {
        self.notification_armed = false;
        if self.dirty {
            self.dirty = false;
            true
        } else {
            false
        }
    }
}

/// Output that arrives while a notification is armed asks for no other one;
/// the notification, when it fires, reports the output, and the next output
/// after it asks for a notification again. How fast it should fire depends
/// only on the moment and the input window, never on earlier output.
pub proof fn lemma_surface_notifications_coalesce(n: SurfaceDirtyNotifier, now: u64)
    ensures
        n.after_output().notification_armed,
        n.after_output().after_output() == n.after_output(),
        n.after_output().dirty,
        !n.after_output().after_flush().notification_armed,
        !n.after_output().after_flush().dirty,
        n.after_output().preferred_interval_spec(now) == n.preferred_interval_spec(now),
        n.after_flush().preferred_interval_spec(now) == n.preferred_interval_spec(now),
{
}

/// Asks for the process's memory to be trimmed after a lot of output has gone quiet.
#[derive(Debug, Clone, PartialEq, Eq)]
pub struct WorkingSetTrimScheduler {
    pub pending_output_bytes: usize,
}

impl Default for WorkingSetTrimScheduler {
    fn default() -> (r: Self)
        ensures
            r.pending_output_bytes == 0,
    {
        WorkingSetTrimScheduler { pending_output_bytes: 0 }
    }
}

impl WorkingSetTrimScheduler {
    pub fn record_output(&mut self, bytes: usize)
        ensures
            final(self).pending_output_bytes == if old(self).pending_output_bytes + bytes > usize::MAX {
                usize::MAX as int
            } else {
                old(self).pending_output_bytes + bytes
            },
    {
        self.pending_output_bytes = self.pending_output_bytes.saturating_add(bytes);
    }

    /// The bytes seen since the last request, if enough for a trim; starts counting afresh.
    pub fn take_trim_request_bytes(&mut self) -> (r: Option<usize>)
        ensures
            final(self).pending_output_bytes == 0,
            r == if old(self).pending_output_bytes >= WORKING_SET_TRIM_MIN_OUTPUT_BYTES {
                Some(old(self).pending_output_bytes)
            } else {
                None
            },
    {
        let pending = self.pending_output_bytes;
        self.pending_output_bytes = 0;
        if pending >= WORKING_SET_TRIM_MIN_OUTPUT_BYTES {
            Some(pending)
        } else {
            None
        }
    }
}

} // verus!
