//! The connection progress screen: the states a connection attempt goes
//! through, the hops of its path, and the preview fixtures that show each
//! screen without a live connection.

use vstd::prelude::*;
use crate::format::{dec_digits, dec_string};
use crate::ids::uuid_new_v4;
use crate::text::{cat, chars_of, lemma_trim_unchanged, same_text, trim, trim_str};

verus! {

#[derive(Debug, Clone, Copy, PartialEq, Eq, Structural)]
pub enum ConnectionHeadlineState {
    Connecting,
    WaitingUser,
    Connected,
    Cancelled,
    Error,
}

#[derive(Debug, Clone, Copy, PartialEq, Eq, Structural)]
pub enum ConnectionStepState {
    Pending,
    Running,
    Done,
    Blocked,
    Failed,
    Cancelled,
}

#[derive(Debug, Clone, Copy, PartialEq, Eq, Structural)]
pub enum ConnectionVisualState {
    VerifyingHostKey,
    Connecting,
    HostKeyWarning,
    Failed,
    Connected,
}

#[derive(Debug, Clone, Copy, PartialEq, Eq, Structural)]
pub enum ConnectionHopKind {
    Local,
    JumpHost,
    Target,
}

#[derive(Debug, Clone, Copy, PartialEq, Eq, Structural)]
pub enum ConnectionHopVisualState {
    Completed,
    Current,
    Pending,
    Failed,
}

#[derive(Debug, Clone, Copy, PartialEq, Eq, Structural)]
pub enum ConnectionPreviewState {
    VerifyingHostKeyDirect,
    VerifyingHostKeyWithJumpHost,
    ConnectingTrustedDirect,
    ConnectingTrustedWithJumpHost,
    HostKeyChangedWarning,
    FailedJumpHost,
}

#[derive(Debug, Clone, PartialEq, Eq)]
pub struct ConnectionHopStateItem {
    pub kind: ConnectionHopKind,
    pub label: String,
    pub subtitle: String,
    pub host: String,
    pub port: u16,
    pub state: ConnectionHopVisualState,
}

#[derive(Debug, Clone, PartialEq, Eq)]
pub struct ConnectionInfoField {
    pub label: String,
    pub value: String,
    pub copy_value: Option<String>,
    pub monospace: bool,
}

#[derive(Debug, Clone, PartialEq, Eq)]
pub struct ConnectionPreviewFixture {
    pub session_title: String,
    pub headline: ConnectionHeadlineState,
    pub visual_state: ConnectionVisualState,
    pub current_hop_label: String,
    pub current_detail: String,
    pub task_title: String,
    pub task_detail: String,
    pub hops: Vec<ConnectionHopStateItem>,
    pub progress_steps: Vec<ConnectionStepStateItem>,
    pub main_fields: Vec<ConnectionInfoField>,
    pub detail_fields: Vec<ConnectionInfoField>,
    pub diagnostics: Vec<String>,
    pub warning_expected: String,
    pub warning_current: String,
    pub warning_host: String,
    pub prompt: Option<ConnectionHostKeyPrompt>,
}

#[derive(Debug, Clone, PartialEq, Eq)]
pub struct ConnectionStepStateItem {
    pub step_id: String,
    pub step_kind: String,
    pub title: String,
    pub detail: String,
    pub hop_label: String,
    pub state: ConnectionStepState,
}

#[derive(Debug, Clone, PartialEq, Eq)]
pub struct ConnectionDiagnosticLine {
    pub attempt_id: u128,
    pub message: String,
}

#[derive(Debug, Clone, PartialEq, Eq)]
pub struct ConnectionHostKeyPrompt {
    pub host: String,
    pub port: u16,
    pub fingerprint: String,
    pub public_key_openssh: String,
}

#[derive(Debug, Clone, PartialEq, Eq)]
pub struct ConnectionAttemptState {
    pub attempt_id: u128,
    pub headline: ConnectionHeadlineState,
    pub steps: Vec<ConnectionStepStateItem>,
    pub diagnostics: Vec<ConnectionDiagnosticLine>,
    pub prompt: Option<ConnectionHostKeyPrompt>,
}

impl ConnectionAttemptState {
    /// A fresh attempt with a random identifier.
    pub fn new(headline: ConnectionHeadlineState) -> (r: Self)
        ensures
            r.headline == headline,
            r.steps@.len() == 0,
            r.diagnostics@.len() == 0,
            r.prompt.is_none(),
    {
        ConnectionAttemptState::with_attempt_id(uuid_new_v4(), headline)
    }

    pub fn with_attempt_id(attempt_id: u128, headline: ConnectionHeadlineState) -> (r: Self)
        ensures
            r.attempt_id == attempt_id,
            r.headline == headline,
            r.steps@.len() == 0,
            r.diagnostics@.len() == 0,
            r.prompt.is_none(),
    {
        ConnectionAttemptState { attempt_id, headline, steps: Vec::new(), diagnostics: Vec::new(), prompt: None }
    }
}

#[derive(Debug, Clone, PartialEq, Eq)]
pub enum ConnectionProgressEvent {
    AttemptStarted { attempt_id: u128, headline: ConnectionHeadlineState },
    HeadlineChanged { attempt_id: u128, headline: ConnectionHeadlineState },
    StepUpdated { attempt_id: u128, step: ConnectionStepStateItem },
    DiagnosticAppended { attempt_id: u128, message: String },
}

// ---------------------------------------------------------------------------
// Preview states by name
// ---------------------------------------------------------------------------

/// The name of a preview state.
pub open spec fn preview_state_name(s: ConnectionPreviewState) -> Seq<char> {
    match s {
        ConnectionPreviewState::VerifyingHostKeyDirect => "verifying_host_key_direct"@,
        ConnectionPreviewState::VerifyingHostKeyWithJumpHost => "verifying_host_key_with_jump_host"@,
        ConnectionPreviewState::ConnectingTrustedDirect => "connecting_trusted_direct"@,
        ConnectionPreviewState::ConnectingTrustedWithJumpHost => "connecting_trusted_with_jump_host"@,
        ConnectionPreviewState::HostKeyChangedWarning => "host_key_changed_warning"@,
        ConnectionPreviewState::FailedJumpHost => "failed_jump_host"@,
    }
}

/// The preview state a trimmed name stands for.
pub open spec fn preview_state_named(name: Seq<char>) -> Option<ConnectionPreviewState> {
    if name == "verifying_host_key_direct"@ {
        Some(ConnectionPreviewState::VerifyingHostKeyDirect)
    } else if name == "verifying_host_key_with_jump_host"@ {
        Some(ConnectionPreviewState::VerifyingHostKeyWithJumpHost)
    } else if name == "connecting_trusted_direct"@ {
        Some(ConnectionPreviewState::ConnectingTrustedDirect)
    } else if name == "connecting_trusted_with_jump_host"@ {
        Some(ConnectionPreviewState::ConnectingTrustedWithJumpHost)
    } else if name == "host_key_changed_warning"@ {
        Some(ConnectionPreviewState::HostKeyChangedWarning)
    } else if name == "failed_jump_host"@ {
        Some(ConnectionPreviewState::FailedJumpHost)
    } else {
        None
    }
}

// ---------------------------------------------------------------------------
// Fixture parts
// ---------------------------------------------------------------------------

pub fn local_hop(state: ConnectionHopVisualState) -> (r: ConnectionHopStateItem)
    ensures
        r.kind == ConnectionHopKind::Local,
        r.label@ == "Local"@,
        r.subtitle@ == "You"@,
        r.host@ == "local"@,
        r.port == 0,
        r.state == state,
{
    ConnectionHopStateItem {
        kind: ConnectionHopKind::Local,
        label: String::from_str("Local"),
        subtitle: String::from_str("You"),
        host: String::from_str("local"),
        port: 0,
        state,
    }
}

pub fn jump_hop(index: usize, host: &str, port: u16, state: ConnectionHopVisualState) -> (r: ConnectionHopStateItem)
    requires
        index <= u64::MAX,
    ensures
        r.kind == ConnectionHopKind::JumpHost,
        r.label@ == "Jump Host "@ + dec_digits(index as nat),
        r.subtitle@ == host@,
        r.host@ == host@,
        r.port == port,
        r.state == state,
{
    let number = dec_string(index as u64);
    ConnectionHopStateItem {
        kind: ConnectionHopKind::JumpHost,
        label: cat("Jump Host ", number.as_str()),
        subtitle: String::from_str(host),
        host: String::from_str(host),
        port,
        state,
    }
}

pub fn target_hop(label: &str, host: &str, port: u16, state: ConnectionHopVisualState) -> (r: ConnectionHopStateItem)
    ensures
        r.kind == ConnectionHopKind::Target,
        r.label@ == label@,
        r.subtitle@ == host@,
        r.host@ == host@,
        r.port == port,
        r.state == state,
{
    ConnectionHopStateItem {
        kind: ConnectionHopKind::Target,
        label: String::from_str(label),
        subtitle: String::from_str(host),
        host: String::from_str(host),
        port,
        state,
    }
}

pub fn field(label: &str, value: &str, copy_value: Option<&str>, monospace: bool) -> (r: ConnectionInfoField)
    ensures
        r.label@ == label@,
        r.value@ == value@,
        match copy_value {
            Some(c) => r.copy_value matches Some(x) && x@ == c@,
            None => r.copy_value is None,
        },
        r.monospace == monospace,
{
    ConnectionInfoField {
        label: String::from_str(label),
        value: String::from_str(value),
        copy_value: match copy_value {
            Some(c) => Some(String::from_str(c)),
            None => None,
        },
        monospace,
    }
}

/// The ASCII lower-case form of `c`.
pub open spec fn ascii_lower(c: char) -> char {
    if 'A' <= c && c <= 'Z' { ((c as u32) + 32) as char } else { c }
}

/// A title as a step identifier: ASCII lower case, spaces turned into `-`.
pub open spec fn slug(s: Seq<char>) -> Seq<char> {
    s.map_values(|c: char| if c == ' ' { '-' } else { ascii_lower(c) })
}

pub fn slugify(s: &str) -> (r: String)
    ensures
        r@ == slug(s@),
{
    let v = chars_of(s);
    let mut r = String::new();
    let mut i: usize = 0;
    while i < v.len()
        invariant
            i <= v@.len(),
            v@ == s@,
            r@ == slug(s@.take(i as int)),
        decreases v.len() - i,
    {
        let c = v[i];
        let d = if c == ' ' {
            '-'
        } else if 'A' <= c && c <= 'Z' {
            ((c as u8) + 32) as char
        } else {
            c
        };
        assert(d == (if c == ' ' { '-' } else { ascii_lower(c) }));
        crate::format::push_char(&mut r, d);
        assert(r@ =~= slug(s@.take(i + 1)));
        i = i + 1;
    }
    assert(s@.take(i as int) =~= s@);
    r
}

/// The step state a fixture name stands for; unknown names are pending.
pub open spec fn step_state_named(name: Seq<char>) -> ConnectionStepState {
    if name == "done"@ {
        ConnectionStepState::Done
    } else if name == "running"@ {
        ConnectionStepState::Running
    } else if name == "failed"@ {
        ConnectionStepState::Failed
    } else if name == "blocked"@ {
        ConnectionStepState::Blocked
    } else if name == "cancelled"@ {
        ConnectionStepState::Cancelled
    } else {
        ConnectionStepState::Pending
    }
}

pub fn step(state: &str, hop_label: &str, title: &str, detail: &str) -> (r: ConnectionStepStateItem)
    ensures
        r.step_id@ == slug(hop_label@) + "-"@ + slug(title@),
        r.step_kind@ == slug(title@),
        r.title@ == title@,
        r.detail@ == detail@,
        r.hop_label@ == hop_label@,
        r.state == step_state_named(state@),
{
    let step_state = if same_text(state, "done") {
        ConnectionStepState::Done
    } else if same_text(state, "running") {
        ConnectionStepState::Running
    } else if same_text(state, "failed") {
        ConnectionStepState::Failed
    } else if same_text(state, "blocked") {
        ConnectionStepState::Blocked
    } else if same_text(state, "cancelled") {
        ConnectionStepState::Cancelled
    } else {
        ConnectionStepState::Pending
    };
    let hop_slug = slugify(hop_label);
    let title_slug = slugify(title);
    ConnectionStepStateItem {
        step_id: crate::text::cat3(hop_slug.as_str(), "-", title_slug.as_str()),
        step_kind: title_slug,
        title: String::from_str(title),
        detail: String::from_str(detail),
        hop_label: String::from_str(hop_label),
        state: step_state,
    }
}

// ---------------------------------------------------------------------------
// What each preview shows
// ---------------------------------------------------------------------------

pub open spec fn hop_summary(h: ConnectionHopStateItem) -> (ConnectionHopKind, Seq<char>, ConnectionHopVisualState) {
    (h.kind, h.label@, h.state)
}

/// The path of each preview: each hop's kind, label and state.
pub open spec fn preview_hops(s: ConnectionPreviewState) -> Seq<(ConnectionHopKind, Seq<char>, ConnectionHopVisualState)> {
    let local = (ConnectionHopKind::Local, "Local"@, ConnectionHopVisualState::Completed);
    let jump = |st: ConnectionHopVisualState| (ConnectionHopKind::JumpHost, "Jump Host 1"@, st);
    let target = |st: ConnectionHopVisualState| (ConnectionHopKind::Target, "Target"@, st);
    match s {
        ConnectionPreviewState::VerifyingHostKeyDirect => seq![local, target(ConnectionHopVisualState::Current)],
        ConnectionPreviewState::VerifyingHostKeyWithJumpHost => seq![
            local,
            jump(ConnectionHopVisualState::Completed),
            target(ConnectionHopVisualState::Current),
        ],
        ConnectionPreviewState::ConnectingTrustedDirect => seq![local, target(ConnectionHopVisualState::Current)],
        ConnectionPreviewState::ConnectingTrustedWithJumpHost => seq![
            local,
            jump(ConnectionHopVisualState::Completed),
            target(ConnectionHopVisualState::Current),
        ],
        ConnectionPreviewState::HostKeyChangedWarning => seq![
            local,
            jump(ConnectionHopVisualState::Completed),
            target(ConnectionHopVisualState::Failed),
        ],
        ConnectionPreviewState::FailedJumpHost => seq![
            local,
            jump(ConnectionHopVisualState::Failed),
            target(ConnectionHopVisualState::Pending),
        ],
    }
}

/// The states of each preview's progress steps.
pub open spec fn preview_step_states(s: ConnectionPreviewState) -> Seq<ConnectionStepState> {
    match s {
        ConnectionPreviewState::ConnectingTrustedDirect => seq![
            ConnectionStepState::Done,
            ConnectionStepState::Done,
            ConnectionStepState::Running,
            ConnectionStepState::Pending,
        ],
        ConnectionPreviewState::ConnectingTrustedWithJumpHost => seq![
            ConnectionStepState::Done,
            ConnectionStepState::Done,
            ConnectionStepState::Done,
            ConnectionStepState::Done,
            ConnectionStepState::Running,
        ],
        _ => Seq::empty(),
    }
}

/// Each preview's headline and visual state.
pub open spec fn preview_status(s: ConnectionPreviewState) -> (ConnectionHeadlineState, ConnectionVisualState) {
    match s {
        ConnectionPreviewState::VerifyingHostKeyDirect => (ConnectionHeadlineState::WaitingUser, ConnectionVisualState::VerifyingHostKey),
        ConnectionPreviewState::VerifyingHostKeyWithJumpHost => (ConnectionHeadlineState::WaitingUser, ConnectionVisualState::VerifyingHostKey),
        ConnectionPreviewState::ConnectingTrustedDirect => (ConnectionHeadlineState::Connecting, ConnectionVisualState::Connecting),
        ConnectionPreviewState::ConnectingTrustedWithJumpHost => (ConnectionHeadlineState::Connecting, ConnectionVisualState::Connecting),
        ConnectionPreviewState::HostKeyChangedWarning => (ConnectionHeadlineState::Error, ConnectionVisualState::HostKeyWarning),
        ConnectionPreviewState::FailedJumpHost => (ConnectionHeadlineState::Error, ConnectionVisualState::Failed),
    }
}

/// What a preview fixture shows, apart from its descriptive texts: its
/// status, its path, its steps, whether it asks for a host key decision,
/// and the key warning of the host-key-changed preview.
/// The hop label, detail, task title and task detail a preview shows.
pub open spec fn preview_texts(s: ConnectionPreviewState) -> Seq<Seq<char>> {
    match s {
        ConnectionPreviewState::VerifyingHostKeyDirect => seq!["Target"@, "Waiting for you to verify the target host key."@, "Verify host key"@, "The authenticity of the target host cannot be established. Please verify the host key fingerprint below before continuing."@],
        ConnectionPreviewState::VerifyingHostKeyWithJumpHost => seq!["Target"@, "Waiting for you to verify the target host key."@, "Verify host key"@, "The authenticity of the target host cannot be established. Please verify the host key fingerprint below before continuing."@],
        ConnectionPreviewState::ConnectingTrustedDirect => seq!["Target"@, "Authenticating the secure session with deploy@server.interserver.com."@, "Connecting"@, "Using the trusted host key. Finishing authentication and preparing the remote shell."@],
        ConnectionPreviewState::ConnectingTrustedWithJumpHost => seq!["Target"@, "Jump Host 1 is ready. Opening the remote shell on the target host."@, "Connecting"@, "Trusted host keys are already known. Completing the multi-hop path and preparing the terminal session."@],
        ConnectionPreviewState::HostKeyChangedWarning => seq!["Target"@, "The previously trusted host key no longer matches."@, "Host key changed"@, "The server presented a different host key than the one previously trusted for this host. This may indicate the server was reinstalled, the key rotated, or a man-in-the-middle risk."@],
        ConnectionPreviewState::FailedJumpHost => seq!["Jump Host 1"@, "Authentication failed while connecting to the jump host."@, "Connection failed"@, "The connection could not continue because Jump Host 1 rejected the configured credentials."@],
    }
}

/// The diagnostics a preview lists.
pub open spec fn preview_diagnostics(s: ConnectionPreviewState) -> Seq<Seq<char>> {
    match s {
        ConnectionPreviewState::VerifyingHostKeyDirect => seq!["Host key verification required for server.interserver.com:22"@],
        ConnectionPreviewState::VerifyingHostKeyWithJumpHost => seq!["Connected to jump host jump.example.com:22"@, "Host key verification required for server.interserver.com:22"@],
        ConnectionPreviewState::ConnectingTrustedDirect => seq!["Loaded profile Interserver"@, "Connected to target server.interserver.com:22"@],
        ConnectionPreviewState::ConnectingTrustedWithJumpHost => seq!["Connected to jump host jump.example.com:22"@, "Connected to target server.interserver.com:22"@],
        ConnectionPreviewState::HostKeyChangedWarning => seq!["Connected to jump host jump.example.com:22"@, "SSH host key changed for server.interserver.com:22"@],
        ConnectionPreviewState::FailedJumpHost => seq!["Connected to jump host jump.example.com:22"@, "Authentication failed for jump-user@jump.example.com"@],
    }
}

/// The labels and values of a preview's main fields.
pub open spec fn preview_main_fields(s: ConnectionPreviewState) -> Seq<(Seq<char>, Seq<char>)> {
    match s {
        ConnectionPreviewState::VerifyingHostKeyDirect => seq![("Host"@, "server.interserver.com"@), ("Port"@, "22 (SSH)"@), ("Fingerprint"@, "SHA256:8b:7d:4a:77:3c:19:6e:2f:bc:91:5a:0d:3e:88:bf:4c"@)],
        ConnectionPreviewState::VerifyingHostKeyWithJumpHost => seq![("Host"@, "server.interserver.com"@), ("Port"@, "22 (SSH)"@), ("Fingerprint"@, "SHA256:8b:7d:4a:77:3c:19:6e:2f:bc:91:5a:0d:3e:88:bf:4c"@), ("Jump Host"@, "jump.example.com:22"@)],
        ConnectionPreviewState::ConnectingTrustedDirect => seq![("Target"@, "server.interserver.com"@), ("Path"@, "Direct"@), ("Port"@, "22 (SSH)"@), ("Auth"@, "Private key"@)],
        ConnectionPreviewState::ConnectingTrustedWithJumpHost => seq![("Target"@, "server.interserver.com"@), ("Path"@, "jump.example.com:22"@), ("Port"@, "22 (SSH)"@), ("Auth"@, "Private key"@)],
        ConnectionPreviewState::HostKeyChangedWarning => seq![("Host"@, "server.interserver.com"@), ("Port"@, "22 (SSH)"@), ("Previously trusted"@, "SHA256:ab:17:d2:99:93:ca:ff:41:ce:80:02:1f:51:91:44:00"@), ("Presented now"@, "SHA256:3f:90:55:7a:10:da:25:8f:b8:81:44:21:91:1c:be:72"@)],
        ConnectionPreviewState::FailedJumpHost => seq![("Failed at"@, "Jump Host 1"@), ("Host"@, "jump.example.com"@), ("Port"@, "22 (SSH)"@)],
    }
}

/// The labels and values of a preview's detail fields.
pub open spec fn preview_detail_fields(s: ConnectionPreviewState) -> Seq<(Seq<char>, Seq<char>)> {
    match s {
        ConnectionPreviewState::VerifyingHostKeyDirect => seq![("User"@, "deploy"@), ("Authentication"@, "Private key"@), ("Port"@, "22"@), ("Strict host key checking"@, "On"@), ("Jump chain"@, "Direct connection"@)],
        ConnectionPreviewState::VerifyingHostKeyWithJumpHost => seq![("User"@, "deploy"@), ("Authentication"@, "Private key"@), ("Port"@, "22"@), ("Strict host key checking"@, "On"@), ("Jump chain"@, "Local -> Jump Host 1 -> Target"@)],
        ConnectionPreviewState::ConnectingTrustedDirect => seq![("User"@, "deploy"@), ("Authentication"@, "Private key"@), ("Port"@, "22"@), ("Strict host key checking"@, "On"@), ("Jump chain"@, "Direct connection"@)],
        ConnectionPreviewState::ConnectingTrustedWithJumpHost => seq![("User"@, "deploy"@), ("Authentication"@, "Private key"@), ("Port"@, "22"@), ("Strict host key checking"@, "On"@), ("Jump chain"@, "jump.example.com:22"@)],
        ConnectionPreviewState::HostKeyChangedWarning => seq![("User"@, "deploy"@), ("Authentication"@, "Private key"@), ("Port"@, "22"@), ("Strict host key checking"@, "On"@), ("Jump chain"@, "jump.example.com:22"@)],
        ConnectionPreviewState::FailedJumpHost => seq![("User"@, "jump-user"@), ("Authentication"@, "Private key"@), ("Port"@, "22"@), ("Strict host key checking"@, "On"@), ("Jump chain"@, "jump.example.com:22"@)],
    }
}

pub open spec fn field_view(x: ConnectionInfoField) -> (Seq<char>, Seq<char>) {
    (x.label@, x.value@)
}

pub open spec fn fixture_shape(s: ConnectionPreviewState, f: ConnectionPreviewFixture) -> bool {
    &&& f.session_title@ == "Interserver"@
    &&& (f.headline, f.visual_state) == preview_status(s)
    &&& f.hops@.map_values(|h: ConnectionHopStateItem| hop_summary(h)) == preview_hops(s)
    &&& f.progress_steps@.map_values(|st: ConnectionStepStateItem| st.state) == preview_step_states(s)
    &&& f.prompt.is_some() == (s is VerifyingHostKeyDirect || s is VerifyingHostKeyWithJumpHost)
    &&& seq![f.current_hop_label@, f.current_detail@, f.task_title@, f.task_detail@] == preview_texts(s)
    &&& f.diagnostics@.map_values(|d: String| d@) == preview_diagnostics(s)
    &&& f.main_fields@.map_values(|x: ConnectionInfoField| field_view(x)) == preview_main_fields(s)
    &&& f.detail_fields@.map_values(|x: ConnectionInfoField| field_view(x)) == preview_detail_fields(s)
    &&& if s is HostKeyChangedWarning {
        &&& f.warning_expected@ == "SHA256:ab:17:d2:99:93:ca:ff:41:ce:80:02:1f:51:91:44:00"@
        &&& f.warning_current@ == "SHA256:3f:90:55:7a:10:da:25:8f:b8:81:44:21:91:1c:be:72"@
        &&& f.warning_host@ == "server.interserver.com:22"@
    } else {
        &&& f.warning_expected@.len() == 0
        &&& f.warning_current@.len() == 0
        &&& f.warning_host@.len() == 0
    }
}

proof fn lemma_step_state_names()
    ensures
        step_state_named("done"@) == ConnectionStepState::Done,
        step_state_named("running"@) == ConnectionStepState::Running,
        step_state_named("pending"@) == ConnectionStepState::Pending,
{
    reveal_strlit("done");
    reveal_strlit("running");
    reveal_strlit("pending");
    reveal_strlit("failed");
    reveal_strlit("blocked");
    reveal_strlit("cancelled");
    assert("running"@.len() != "done"@.len());
    assert("pending"@.len() != "done"@.len());
    assert("pending"@[0] != "running"@[0]);
    assert("pending"@.len() != "failed"@.len());
    assert("pending"@[0] != "blocked"@[0]);
    assert("pending"@.len() != "cancelled"@.len());
}

proof fn lemma_jump_host_one_label()
    ensures
        "Jump Host "@ + dec_digits(1) == "Jump Host 1"@,
{
    reveal_strlit("Jump Host ");
    reveal_strlit("Jump Host 1");
    assert(dec_digits(1) =~= seq!['1']);
    assert("Jump Host "@ + dec_digits(1) =~= "Jump Host 1"@);
}

/// Every preview state is found again under the name it is written as.
pub proof fn lemma_preview_state_names_round_trip(state: ConnectionPreviewState)
    ensures
        preview_state_named(trim(preview_state_name(state))) == Some(state),
{
    reveal_strlit("verifying_host_key_direct");
    reveal_strlit("verifying_host_key_with_jump_host");
    reveal_strlit("connecting_trusted_direct");
    reveal_strlit("connecting_trusted_with_jump_host");
    reveal_strlit("host_key_changed_warning");
    reveal_strlit("failed_jump_host");
    let name = preview_state_name(state);
    lemma_trim_unchanged(name);
    let a = "verifying_host_key_direct"@;
    let b = "verifying_host_key_with_jump_host"@;
    let c = "connecting_trusted_direct"@;
    let d = "connecting_trusted_with_jump_host"@;
    let e = "host_key_changed_warning"@;
    assert(a[0] != c[0] && a[0] != e[0] && a[0] != "failed_jump_host"@[0]);
    assert(b[0] != d[0] && b[0] != e[0]);
    assert(c[0] != e[0] && d[0] != e[0]);
    assert(a.len() != b.len() && a.len() != d.len() && b.len() != c.len());
}

impl ConnectionPreviewState {
    /// The preview state named by `raw`, surrounding whitespace ignored.
    pub fn parse(raw: &str) -> (r: Option<Self>)
        ensures
            r == preview_state_named(trim(raw@)),
    {
        let name = trim_str(raw);
        let n = name.as_str();
        if same_text(n, "verifying_host_key_direct") {
            Some(ConnectionPreviewState::VerifyingHostKeyDirect)
        } else if same_text(n, "verifying_host_key_with_jump_host") {
            Some(ConnectionPreviewState::VerifyingHostKeyWithJumpHost)
        } else if same_text(n, "connecting_trusted_direct") {
            Some(ConnectionPreviewState::ConnectingTrustedDirect)
        } else if same_text(n, "connecting_trusted_with_jump_host") {
            Some(ConnectionPreviewState::ConnectingTrustedWithJumpHost)
        } else if same_text(n, "host_key_changed_warning") {
            Some(ConnectionPreviewState::HostKeyChangedWarning)
        } else if same_text(n, "failed_jump_host") {
            Some(ConnectionPreviewState::FailedJumpHost)
        } else {
            None
        }
    }

    pub fn as_str(self) -> (r: &'static str)
        ensures
            r@ == preview_state_name(self),
    {
        match self {
            ConnectionPreviewState::VerifyingHostKeyDirect => "verifying_host_key_direct",
            ConnectionPreviewState::VerifyingHostKeyWithJumpHost => "verifying_host_key_with_jump_host",
            ConnectionPreviewState::ConnectingTrustedDirect => "connecting_trusted_direct",
            ConnectionPreviewState::ConnectingTrustedWithJumpHost => "connecting_trusted_with_jump_host",
            ConnectionPreviewState::HostKeyChangedWarning => "host_key_changed_warning",
            ConnectionPreviewState::FailedJumpHost => "failed_jump_host",
        }
    }

    #[verifier::rlimit(100)]
    #[verifier::spinoff_prover]
    pub fn fixture(self) -> (r: ConnectionPreviewFixture)
        ensures
            fixture_shape(self, r),
    {
        match self {
            ConnectionPreviewState::VerifyingHostKeyDirect => {
                let f = ConnectionPreviewFixture {
                    session_title: String::from_str("Interserver"),
                    headline: ConnectionHeadlineState::WaitingUser,
                    visual_state: ConnectionVisualState::VerifyingHostKey,
                    current_hop_label: String::from_str("Target"),
                    current_detail: String::from_str("Waiting for you to verify the target host key."),
                    task_title: String::from_str("Verify host key"),
                    task_detail: String::from_str("The authenticity of the target host cannot be established. Please verify the host key fingerprint below before continuing."),
                    hops: vec![
                        local_hop(ConnectionHopVisualState::Completed),
                        target_hop("Target", "server.interserver.com", 22, ConnectionHopVisualState::Current),
                    ],
                    progress_steps: vec![],
                    main_fields: vec![
                        field("Host", "server.interserver.com", Some("server.interserver.com"), false),
                        field("Port", "22 (SSH)", Some("22"), false),
                        field("Fingerprint", "SHA256:8b:7d:4a:77:3c:19:6e:2f:bc:91:5a:0d:3e:88:bf:4c", Some("SHA256:8b:7d:4a:77:3c:19:6e:2f:bc:91:5a:0d:3e:88:bf:4c"), true),
                    ],
                    detail_fields: vec![
                        field("User", "deploy", None, false),
                        field("Authentication", "Private key", None, false),
                        field("Port", "22", None, false),
                        field("Strict host key checking", "On", None, false),
                        field("Jump chain", "Direct connection", None, false),
                    ],
                    diagnostics: vec![
                        String::from_str("Host key verification required for server.interserver.com:22"),
                    ],
                    warning_expected: String::new(),
                    warning_current: String::new(),
                    warning_host: String::new(),
                    prompt: Some(ConnectionHostKeyPrompt {
                        host: String::from_str("server.interserver.com"),
                        port: 22,
                        fingerprint: String::from_str("SHA256:8b:7d:4a:77:3c:19:6e:2f:bc:91:5a:0d:3e:88:bf:4c"),
                        public_key_openssh: String::from_str("ssh-ed25519 AAAAC3NzaC1lZDI1NTE5AAAAIFakePreviewDirectKey"),
                    }),
                };
                proof {
                    lemma_jump_host_one_label();
                    lemma_step_state_names();
                    assert(f.hops@.map_values(|h: ConnectionHopStateItem| hop_summary(h)) =~= preview_hops(self));
                    assert(f.progress_steps@.map_values(|st: ConnectionStepStateItem| st.state) =~= preview_step_states(self));
                    assert(seq![f.current_hop_label@, f.current_detail@, f.task_title@, f.task_detail@] =~= preview_texts(self));
                    assert(f.diagnostics@.map_values(|d: String| d@) =~= preview_diagnostics(self));
                    assert(f.main_fields@.map_values(|x: ConnectionInfoField| field_view(x)) =~= preview_main_fields(self));
                    assert(f.detail_fields@.map_values(|x: ConnectionInfoField| field_view(x)) =~= preview_detail_fields(self));
                }
                f
            },
            ConnectionPreviewState::VerifyingHostKeyWithJumpHost => {
                let f = ConnectionPreviewFixture {
                    session_title: String::from_str("Interserver"),
                    headline: ConnectionHeadlineState::WaitingUser,
                    visual_state: ConnectionVisualState::VerifyingHostKey,
                    current_hop_label: String::from_str("Target"),
                    current_detail: String::from_str("Waiting for you to verify the target host key."),
                    task_title: String::from_str("Verify host key"),
                    task_detail: String::from_str("The authenticity of the target host cannot be established. Please verify the host key fingerprint below before continuing."),
                    hops: vec![
                        local_hop(ConnectionHopVisualState::Completed),
                        jump_hop(1, "jump.example.com", 22, ConnectionHopVisualState::Completed),
                        target_hop("Target", "server.interserver.com", 22, ConnectionHopVisualState::Current),
                    ],
                    progress_steps: vec![],
                    main_fields: vec![
                        field("Host", "server.interserver.com", Some("server.interserver.com"), false),
                        field("Port", "22 (SSH)", Some("22"), false),
                        field("Fingerprint", "SHA256:8b:7d:4a:77:3c:19:6e:2f:bc:91:5a:0d:3e:88:bf:4c", Some("SHA256:8b:7d:4a:77:3c:19:6e:2f:bc:91:5a:0d:3e:88:bf:4c"), true),
                        field("Jump Host", "jump.example.com:22", Some("jump.example.com:22"), false),
                    ],
                    detail_fields: vec![
                        field("User", "deploy", None, false),
                        field("Authentication", "Private key", None, false),
                        field("Port", "22", None, false),
                        field("Strict host key checking", "On", None, false),
                        field("Jump chain", "Local -> Jump Host 1 -> Target", None, false),
                    ],
                    diagnostics: vec![
                        String::from_str("Connected to jump host jump.example.com:22"),
                        String::from_str("Host key verification required for server.interserver.com:22"),
                    ],
                    warning_expected: String::new(),
                    warning_current: String::new(),
                    warning_host: String::new(),
                    prompt: Some(ConnectionHostKeyPrompt {
                        host: String::from_str("server.interserver.com"),
                        port: 22,
                        fingerprint: String::from_str("SHA256:8b:7d:4a:77:3c:19:6e:2f:bc:91:5a:0d:3e:88:bf:4c"),
                        public_key_openssh: String::from_str("ssh-ed25519 AAAAC3NzaC1lZDI1NTE5AAAAIFakePreviewJumpTargetKey"),
                    }),
                };
                proof {
                    lemma_jump_host_one_label();
                    lemma_step_state_names();
                    assert(f.hops@.map_values(|h: ConnectionHopStateItem| hop_summary(h)) =~= preview_hops(self));
                    assert(f.progress_steps@.map_values(|st: ConnectionStepStateItem| st.state) =~= preview_step_states(self));
                    assert(seq![f.current_hop_label@, f.current_detail@, f.task_title@, f.task_detail@] =~= preview_texts(self));
                    assert(f.diagnostics@.map_values(|d: String| d@) =~= preview_diagnostics(self));
                    assert(f.main_fields@.map_values(|x: ConnectionInfoField| field_view(x)) =~= preview_main_fields(self));
                    assert(f.detail_fields@.map_values(|x: ConnectionInfoField| field_view(x)) =~= preview_detail_fields(self));
                }
                f
            },
            ConnectionPreviewState::ConnectingTrustedDirect => {
                let f = ConnectionPreviewFixture {
                    session_title: String::from_str("Interserver"),
                    headline: ConnectionHeadlineState::Connecting,
                    visual_state: ConnectionVisualState::Connecting,
                    current_hop_label: String::from_str("Target"),
                    current_detail: String::from_str("Authenticating the secure session with deploy@server.interserver.com."),
                    task_title: String::from_str("Connecting"),
                    task_detail: String::from_str("Using the trusted host key. Finishing authentication and preparing the remote shell."),
                    hops: vec![
                        local_hop(ConnectionHopVisualState::Completed),
                        target_hop("Target", "server.interserver.com", 22, ConnectionHopVisualState::Current),
                    ],
                    progress_steps: vec![
                        step("done", "Local", "Resolving profile", "Loaded saved SSH profile"),
                        step("done", "Target", "Connecting", "Connected to server.interserver.com:22"),
                        step("running", "Target", "Authenticating", "Authenticating as deploy"),
                        step("pending", "Target", "Opening session", "Waiting for terminal channel"),
                    ],
                    main_fields: vec![
                        field("Target", "server.interserver.com", Some("server.interserver.com"), false),
                        field("Path", "Direct", None, false),
                        field("Port", "22 (SSH)", Some("22"), false),
                        field("Auth", "Private key", None, false),
                    ],
                    detail_fields: vec![
                        field("User", "deploy", None, false),
                        field("Authentication", "Private key", None, false),
                        field("Port", "22", None, false),
                        field("Strict host key checking", "On", None, false),
                        field("Jump chain", "Direct connection", None, false),
                    ],
                    diagnostics: vec![
                        String::from_str("Loaded profile Interserver"),
                        String::from_str("Connected to target server.interserver.com:22"),
                    ],
                    warning_expected: String::new(),
                    warning_current: String::new(),
                    warning_host: String::new(),
                    prompt: None,
                };
                proof {
                    lemma_jump_host_one_label();
                    lemma_step_state_names();
                    assert(f.hops@.map_values(|h: ConnectionHopStateItem| hop_summary(h)) =~= preview_hops(self));
                    assert(f.progress_steps@.map_values(|st: ConnectionStepStateItem| st.state) =~= preview_step_states(self));
                    assert(seq![f.current_hop_label@, f.current_detail@, f.task_title@, f.task_detail@] =~= preview_texts(self));
                    assert(f.diagnostics@.map_values(|d: String| d@) =~= preview_diagnostics(self));
                    assert(f.main_fields@.map_values(|x: ConnectionInfoField| field_view(x)) =~= preview_main_fields(self));
                    assert(f.detail_fields@.map_values(|x: ConnectionInfoField| field_view(x)) =~= preview_detail_fields(self));
                }
                f
            },
            ConnectionPreviewState::ConnectingTrustedWithJumpHost => {
                let f = ConnectionPreviewFixture {
                    session_title: String::from_str("Interserver"),
                    headline: ConnectionHeadlineState::Connecting,
                    visual_state: ConnectionVisualState::Connecting,
                    current_hop_label: String::from_str("Target"),
                    current_detail: String::from_str("Jump Host 1 is ready. Opening the remote shell on the target host."),
                    task_title: String::from_str("Connecting"),
                    task_detail: String::from_str("Trusted host keys are already known. Completing the multi-hop path and preparing the terminal session."),
                    hops: vec![
                        local_hop(ConnectionHopVisualState::Completed),
                        jump_hop(1, "jump.example.com", 22, ConnectionHopVisualState::Completed),
                        target_hop("Target", "server.interserver.com", 22, ConnectionHopVisualState::Current),
                    ],
                    progress_steps: vec![
                        step("done", "Local", "Resolving profile", "Loaded saved SSH profile"),
                        step("done", "Jump Host 1", "Connecting", "Connected to jump.example.com:22"),
                        step("done", "Jump Host 1", "Authenticating", "Authenticated as jump-user"),
                        step("done", "Target", "Connecting", "Connected to server.interserver.com:22"),
                        step("running", "Target", "Opening session", "Creating terminal channel"),
                    ],
                    main_fields: vec![
                        field("Target", "server.interserver.com", Some("server.interserver.com"), false),
                        field("Path", "jump.example.com:22", Some("jump.example.com:22"), false),
                        field("Port", "22 (SSH)", Some("22"), false),
                        field("Auth", "Private key", None, false),
                    ],
                    detail_fields: vec![
                        field("User", "deploy", None, false),
                        field("Authentication", "Private key", None, false),
                        field("Port", "22", None, false),
                        field("Strict host key checking", "On", None, false),
                        field("Jump chain", "jump.example.com:22", None, false),
                    ],
                    diagnostics: vec![
                        String::from_str("Connected to jump host jump.example.com:22"),
                        String::from_str("Connected to target server.interserver.com:22"),
                    ],
                    warning_expected: String::new(),
                    warning_current: String::new(),
                    warning_host: String::new(),
                    prompt: None,
                };
                proof {
                    lemma_jump_host_one_label();
                    lemma_step_state_names();
                    assert(f.hops@.map_values(|h: ConnectionHopStateItem| hop_summary(h)) =~= preview_hops(self));
                    assert(f.progress_steps@.map_values(|st: ConnectionStepStateItem| st.state) =~= preview_step_states(self));
                    assert(seq![f.current_hop_label@, f.current_detail@, f.task_title@, f.task_detail@] =~= preview_texts(self));
                    assert(f.diagnostics@.map_values(|d: String| d@) =~= preview_diagnostics(self));
                    assert(f.main_fields@.map_values(|x: ConnectionInfoField| field_view(x)) =~= preview_main_fields(self));
                    assert(f.detail_fields@.map_values(|x: ConnectionInfoField| field_view(x)) =~= preview_detail_fields(self));
                }
                f
            },
            ConnectionPreviewState::HostKeyChangedWarning => {
                let f = ConnectionPreviewFixture {
                    session_title: String::from_str("Interserver"),
                    headline: ConnectionHeadlineState::Error,
                    visual_state: ConnectionVisualState::HostKeyWarning,
                    current_hop_label: String::from_str("Target"),
                    current_detail: String::from_str("The previously trusted host key no longer matches."),
                    task_title: String::from_str("Host key changed"),
                    task_detail: String::from_str("The server presented a different host key than the one previously trusted for this host. This may indicate the server was reinstalled, the key rotated, or a man-in-the-middle risk."),
                    hops: vec![
                        local_hop(ConnectionHopVisualState::Completed),
                        jump_hop(1, "jump.example.com", 22, ConnectionHopVisualState::Completed),
                        target_hop("Target", "server.interserver.com", 22, ConnectionHopVisualState::Failed),
                    ],
                    progress_steps: vec![],
                    main_fields: vec![
                        field("Host", "server.interserver.com", Some("server.interserver.com"), false),
                        field("Port", "22 (SSH)", Some("22"), false),
                        field("Previously trusted", "SHA256:ab:17:d2:99:93:ca:ff:41:ce:80:02:1f:51:91:44:00", Some("SHA256:ab:17:d2:99:93:ca:ff:41:ce:80:02:1f:51:91:44:00"), true),
                        field("Presented now", "SHA256:3f:90:55:7a:10:da:25:8f:b8:81:44:21:91:1c:be:72", Some("SHA256:3f:90:55:7a:10:da:25:8f:b8:81:44:21:91:1c:be:72"), true),
                    ],
                    detail_fields: vec![
                        field("User", "deploy", None, false),
                        field("Authentication", "Private key", None, false),
                        field("Port", "22", None, false),
                        field("Strict host key checking", "On", None, false),
                        field("Jump chain", "jump.example.com:22", None, false),
                    ],
                    diagnostics: vec![
                        String::from_str("Connected to jump host jump.example.com:22"),
                        String::from_str("SSH host key changed for server.interserver.com:22"),
                    ],
                    warning_expected: String::from_str("SHA256:ab:17:d2:99:93:ca:ff:41:ce:80:02:1f:51:91:44:00"),
                    warning_current: String::from_str("SHA256:3f:90:55:7a:10:da:25:8f:b8:81:44:21:91:1c:be:72"),
                    warning_host: String::from_str("server.interserver.com:22"),
                    prompt: None,
                };
                proof {
                    lemma_jump_host_one_label();
                    lemma_step_state_names();
                    assert(f.hops@.map_values(|h: ConnectionHopStateItem| hop_summary(h)) =~= preview_hops(self));
                    assert(f.progress_steps@.map_values(|st: ConnectionStepStateItem| st.state) =~= preview_step_states(self));
                    assert(seq![f.current_hop_label@, f.current_detail@, f.task_title@, f.task_detail@] =~= preview_texts(self));
                    assert(f.diagnostics@.map_values(|d: String| d@) =~= preview_diagnostics(self));
                    assert(f.main_fields@.map_values(|x: ConnectionInfoField| field_view(x)) =~= preview_main_fields(self));
                    assert(f.detail_fields@.map_values(|x: ConnectionInfoField| field_view(x)) =~= preview_detail_fields(self));
                }
                f
            },
            ConnectionPreviewState::FailedJumpHost => {
                let f = ConnectionPreviewFixture {
                    session_title: String::from_str("Interserver"),
                    headline: ConnectionHeadlineState::Error,
                    visual_state: ConnectionVisualState::Failed,
                    current_hop_label: String::from_str("Jump Host 1"),
                    current_detail: String::from_str("Authentication failed while connecting to the jump host."),
                    task_title: String::from_str("Connection failed"),
                    task_detail: String::from_str("The connection could not continue because Jump Host 1 rejected the configured credentials."),
                    hops: vec![
                        local_hop(ConnectionHopVisualState::Completed),
                        jump_hop(1, "jump.example.com", 22, ConnectionHopVisualState::Failed),
                        target_hop("Target", "server.interserver.com", 22, ConnectionHopVisualState::Pending),
                    ],
                    progress_steps: vec![],
                    main_fields: vec![
                        field("Failed at", "Jump Host 1", None, false),
                        field("Host", "jump.example.com", Some("jump.example.com"), false),
                        field("Port", "22 (SSH)", Some("22"), false),
                    ],
                    detail_fields: vec![
                        field("User", "jump-user", None, false),
                        field("Authentication", "Private key", None, false),
                        field("Port", "22", None, false),
                        field("Strict host key checking", "On", None, false),
                        field("Jump chain", "jump.example.com:22", None, false),
                    ],
                    diagnostics: vec![
                        String::from_str("Connected to jump host jump.example.com:22"),
                        String::from_str("Authentication failed for jump-user@jump.example.com"),
                    ],
                    warning_expected: String::new(),
                    warning_current: String::new(),
                    warning_host: String::new(),
                    prompt: None,
                };
                proof {
                    lemma_jump_host_one_label();
                    lemma_step_state_names();
                    assert(f.hops@.map_values(|h: ConnectionHopStateItem| hop_summary(h)) =~= preview_hops(self));
                    assert(f.progress_steps@.map_values(|st: ConnectionStepStateItem| st.state) =~= preview_step_states(self));
                    assert(seq![f.current_hop_label@, f.current_detail@, f.task_title@, f.task_detail@] =~= preview_texts(self));
                    assert(f.diagnostics@.map_values(|d: String| d@) =~= preview_diagnostics(self));
                    assert(f.main_fields@.map_values(|x: ConnectionInfoField| field_view(x)) =~= preview_main_fields(self));
                    assert(f.detail_fields@.map_values(|x: ConnectionInfoField| field_view(x)) =~= preview_detail_fields(self));
                }
                f
            },
        }
    }

}

// ---------------------------------------------------------------------------
// Reporting a live attempt
// ---------------------------------------------------------------------------

/// `{:02}`: the decimal digits of `n`, at least two of them.
pub open spec fn two_digit_dec(n: nat) -> Seq<char> {
    if n < 10 { seq!['0'] + dec_digits(n) } else { dec_digits(n) }
}

/// Numbers the steps of one connection attempt and words the events that
/// the progress screen receives about it.
#[derive(Debug, Clone, Copy, PartialEq, Eq)]
pub struct ConnectionProgressReporter {
    pub attempt_id: u128,
    pub next_step_index: usize,
}

/// A step that has started and will end as done, failed or blocked.
#[derive(Debug, Clone, PartialEq, Eq)]
pub struct ConnectionProgressStep {
    pub attempt_id: u128,
    pub step_id: String,
    pub step_kind: String,
    pub title: String,
    pub hop_label: String,
}

impl ConnectionProgressReporter {
    /// A new attempt, and the event that announces it.
    pub fn new(attempt_id: u128, headline: ConnectionHeadlineState) -> (r: (Self, ConnectionProgressEvent))
        ensures
            r.0 == (ConnectionProgressReporter { attempt_id, next_step_index: 0 }),
            r.1 == (ConnectionProgressEvent::AttemptStarted { attempt_id, headline }),
    {
        (ConnectionProgressReporter { attempt_id, next_step_index: 0 }, ConnectionProgressEvent::AttemptStarted { attempt_id, headline })
    }

    /// Starts the next step: its identifier is its number, two digits at
    /// least, a hyphen and its kind. Gives the step and the event that shows
    /// it running.
    pub fn start_step(&mut self, step_kind: &str, title: String, detail: String, hop_label: String)
        -> (r: (ConnectionProgressStep, ConnectionProgressEvent))
        ensures
            final(self).attempt_id == old(self).attempt_id,
            final(self).next_step_index == (if old(self).next_step_index < usize::MAX {
                (old(self).next_step_index + 1) as usize
            } else {
                old(self).next_step_index
            }),
            r.0.attempt_id == old(self).attempt_id,
            r.0.step_id@ == two_digit_dec(old(self).next_step_index as nat) + "-"@ + step_kind@,
            r.0.step_kind@ == step_kind@,
            r.0.title == title,
            r.0.hop_label == hop_label,
            r.1 matches ConnectionProgressEvent::StepUpdated { attempt_id: a, step: item },
            r.1 matches ConnectionProgressEvent::StepUpdated { attempt_id: a, step: item } ==> {
                &&& a == old(self).attempt_id
                &&& item.step_id@ == r.0.step_id@
                &&& item.step_kind@ == step_kind@
                &&& item.title == title
                &&& item.detail == detail
                &&& item.hop_label == hop_label
                &&& item.state == ConnectionStepState::Running
            },
    {
        let digits = dec_string(self.next_step_index as u64);
        let number = if self.next_step_index < 10 { cat("0", digits.as_str()) } else { digits };
        proof { reveal_strlit("0"); }
        let head = cat(number.as_str(), "-");
        let step_id = cat(head.as_str(), step_kind);
        self.next_step_index = if self.next_step_index < usize::MAX { self.next_step_index + 1 } else { self.next_step_index };
        let step = ConnectionProgressStep {
            attempt_id: self.attempt_id,
            step_id: step_id.clone(),
            step_kind: String::from_str(step_kind),
            title: title.clone(),
            hop_label: hop_label.clone(),
        };
        let event = ConnectionProgressEvent::StepUpdated {
            attempt_id: self.attempt_id,
            step: ConnectionStepStateItem {
                step_id,
                step_kind: String::from_str(step_kind),
                title,
                detail,
                hop_label,
                state: ConnectionStepState::Running,
            },
        };
        (step, event)
    }

    /// The event that changes the attempt's headline.
    pub fn set_headline(&self, headline: ConnectionHeadlineState) -> (r: ConnectionProgressEvent)
        ensures
            r == (ConnectionProgressEvent::HeadlineChanged { attempt_id: self.attempt_id, headline }),
    {
        ConnectionProgressEvent::HeadlineChanged { attempt_id: self.attempt_id, headline }
    }
}

/// The two events that end `step` in `state` with `detail`: the step shown
/// in that state, and `detail` added to the diagnostics.
pub open spec fn step_ended(
    r: (ConnectionProgressEvent, ConnectionProgressEvent),
    step: ConnectionProgressStep,
    detail: Seq<char>,
    state: ConnectionStepState,
) -> bool {
    &&& r.0 matches ConnectionProgressEvent::StepUpdated { attempt_id, step: item }
    &&& attempt_id == step.attempt_id
    &&& item.step_id == step.step_id
    &&& item.step_kind == step.step_kind
    &&& item.title == step.title
    &&& item.hop_label == step.hop_label
    &&& item.detail@ == detail
    &&& item.state == state
    &&& r.1 matches ConnectionProgressEvent::DiagnosticAppended { attempt_id: a2, message }
    &&& a2 == step.attempt_id
    &&& message@ == detail
}

impl ConnectionProgressStep {
    fn end(self, detail: String, state: ConnectionStepState) -> (r: (ConnectionProgressEvent, ConnectionProgressEvent))
        ensures
            step_ended(r, self, detail@, state),
    {
        let attempt_id = self.attempt_id;
        let updated = ConnectionProgressEvent::StepUpdated {
            attempt_id,
            step: ConnectionStepStateItem {
                step_id: self.step_id,
                step_kind: self.step_kind,
                title: self.title,
                detail: detail.clone(),
                hop_label: self.hop_label,
                state,
            },
        };
        (updated, ConnectionProgressEvent::DiagnosticAppended { attempt_id, message: detail })
    }

    /// The step succeeded.
    pub fn finish(self, detail: String) -> (r: (ConnectionProgressEvent, ConnectionProgressEvent))
        ensures
            step_ended(r, self, detail@, ConnectionStepState::Done),
    {
        self.end(detail, ConnectionStepState::Done)
    }

    /// The step failed.
    pub fn fail(self, detail: String) -> (r: (ConnectionProgressEvent, ConnectionProgressEvent))
        ensures
            step_ended(r, self, detail@, ConnectionStepState::Failed),
    {
        self.end(detail, ConnectionStepState::Failed)
    }

    /// The step waits on the user (a host key to confirm).
    pub fn block(self, detail: String) -> (r: (ConnectionProgressEvent, ConnectionProgressEvent))
        ensures
            step_ended(r, self, detail@, ConnectionStepState::Blocked),
    {
        self.end(detail, ConnectionStepState::Blocked)
    }
}

} // verus!
