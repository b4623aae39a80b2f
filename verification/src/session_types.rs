//! The vocabulary of the session manager: how a session is opened, the
//! states a session and its shell enhancement go through, and the key under
//! which a host's enhancement outcome is remembered.

use vstd::prelude::*;
use crate::ssh_profile::ConnectionProfile;
use crate::text::{ascii_lowercase, lower_ascii, same_text, trim, trim_str};

verus! {

#[derive(Debug, Clone, Copy, PartialEq, Eq, Structural)]
pub enum OpenSessionMode {
    ActivateExisting,
    ForceNewTab,
}

#[derive(Debug, Clone, PartialEq, Eq)]
pub enum SessionState {
    Connecting,
    WaitingUser,
    Connected,
    Cancelled,
    Disconnected,
    Error(String),
}

#[derive(Debug, Clone, Copy, PartialEq, Eq, Structural)]
pub enum EnhancedSessionState {
    Plain,
    Enhanced,
    Fallback,
}

#[derive(Debug, Clone, Copy, PartialEq, Eq, Structural)]
pub enum EnhancementPolicy {
    AutoTry,
    SkipAutoBootstrap,
}

/// A host and shell whose enhancement outcome is remembered: the user and
/// port as given, the host and shell in ASCII lower case, all trimmed.
#[derive(Debug, Clone, PartialEq, Eq, Hash)]
pub struct EnhancementCacheKey {
    pub user: String,
    pub host: String,
    pub port: u16,
    pub shell: String,
}

pub open spec fn lower_text(s: Seq<char>) -> Seq<char> {
    s.map_values(|c: char| lower_ascii(c))
}

impl EnhancementCacheKey {
    pub fn new(user: &str, host: &str, port: u16, shell: &str) -> (r: Self)
        ensures
            r.user@ == trim(user@),
            r.host@ == lower_text(trim(host@)),
            r.port == port,
            r.shell@ == lower_text(trim(shell@)),
    {
        let h = trim_str(host);
        let s = trim_str(shell);
        EnhancementCacheKey {
            user: trim_str(user),
            host: ascii_lowercase(h.as_str()),
            port,
            shell: ascii_lowercase(s.as_str()),
        }
    }

    pub fn from_profile(profile: &ConnectionProfile, shell: &str) -> (r: Self)
        ensures
            r.user@ == trim(profile.user@),
            r.host@ == lower_text(trim(profile.host@)),
            r.port == profile.port,
            r.shell@ == lower_text(trim(shell@)),
    {
        EnhancementCacheKey::new(profile.user.as_str(), profile.host.as_str(), profile.port, shell)
    }

    /// The key is for the profile's user, host and port (the user compared
    /// as the profile holds it, the host normalised).
    pub fn matches_profile(&self, profile: &ConnectionProfile) -> (r: bool)
        ensures
            r == (self.user@ == profile.user@ && self.host@ == lower_text(trim(profile.host@)) && self.port == profile.port),
    {
        let h = trim_str(profile.host.as_str());
        let host = ascii_lowercase(h.as_str());
        same_text(self.user.as_str(), profile.user.as_str()) && same_text(self.host.as_str(), host.as_str())
            && self.port == profile.port
    }
}

/// A session as the tab strip shows it.
#[derive(Debug, Clone, PartialEq, Eq)]
pub struct SessionHandle {
    pub session_id: u128,
    pub asset_id: String,
    pub title: String,
    pub subtitle: String,
    pub state: SessionState,
    pub can_reconnect: bool,
    pub enhanced_session_state: EnhancedSessionState,
}

/// How many entries each of the session registry's tables holds.
#[derive(Debug, Clone, Copy, PartialEq, Eq, Default)]
pub struct SessionRegistryDiagnosticsSnapshot {
    pub session_count: usize,
    pub open_order_count: usize,
    pub asset_session_count: usize,
    pub terminal_surface_count: usize,
    pub runtime_control_count: usize,
    pub pending_disconnect_count: usize,
    pub pending_resize_count: usize,
    pub current_working_directory_count: usize,
    pub disabled_enhancement_count: usize,
    pub sftp_binding_count: usize,
}

/// What releasing a session's runtime tried and achieved.
#[derive(Debug, Clone, Copy, PartialEq, Eq, Default)]
pub struct RuntimeControlReleaseOutcome {
    pub terminal_memory_release_attempted: bool,
    pub terminal_memory_release_succeeded: bool,
    pub runtime_disconnect_attempted: bool,
    pub runtime_disconnect_succeeded: bool,
}

/// A session still in play may come back: while it connects, waits for the
/// user, or is connected.
pub open spec fn may_reconnect(state: Option<SessionState>) -> bool {
    match state {
        Some(SessionState::Connecting) | Some(SessionState::WaitingUser) | Some(SessionState::Connected) => true,
        _ => false,
    }
}

#[derive(Debug, Clone, Copy, PartialEq, Eq, Structural)]
pub enum SftpOperationKind {
    LoadDir,
    DownloadAndOpen,
    PrepareEditWorkingCopy,
    UploadWorkingCopy,
    RenameEntry,
    DeleteEntries,
    CreateFolder,
}

/// Identifies one operation of one browser session generation.
#[derive(Debug, Clone, PartialEq, Eq)]
pub struct SftpOperationToken {
    pub browser_session_id: String,
    pub generation: u64,
    pub operation_id: u64,
}

pub const MAX_RECONNECT_WAIT_STEPS: usize = 100;
pub const RECONNECT_WAIT_STEP_MS: u64 = 10;

/// The next step of loading a remote folder.
#[derive(Debug, Clone, Copy, PartialEq, Eq, Structural)]
pub enum LoadDirStep {
    /// The SFTP binding is up: read the folder.
    Read,
    /// The session may still reconnect: wait a step and look again.
    Wait,
    /// Give up: the session is gone or waited too long.
    GiveUp,
}

/// Loading a folder reads it as soon as the SFTP binding is connected;
/// otherwise it waits while the session may come back, for at most 100 steps.
pub fn load_dir_step(binding_connected: bool, session_state: Option<&SessionState>, wait_steps: usize) -> (r: LoadDirStep)
    ensures
        r == if binding_connected {
            LoadDirStep::Read
        } else if !may_reconnect(match session_state { Some(s) => Some(*s), None => None }) || wait_steps >= MAX_RECONNECT_WAIT_STEPS {
            LoadDirStep::GiveUp
        } else {
            LoadDirStep::Wait
        },
{
    if binding_connected {
        return LoadDirStep::Read;
    }
    let may = match session_state {
        Some(SessionState::Connecting) | Some(SessionState::WaitingUser) | Some(SessionState::Connected) => true,
        _ => false,
    };
    if !may || wait_steps >= MAX_RECONNECT_WAIT_STEPS {
        LoadDirStep::GiveUp
    } else {
        LoadDirStep::Wait
    }
}

} // verus!
