//! Per-browser SFTP panel state: what is shown, how it was reached, and which
//! directory request is the one whose answer is still awaited.

use vstd::prelude::*;
use crate::remote_paths::{remote_parent_path, remote_parent_spec};
use crate::sftp_model::{
    history_back, history_can_back, history_can_forward, history_current, history_forward,
    history_push, SftpDirectoryEntry, SftpFollowMode, SftpPanelMode, SftpPathHistory,
};

verus! {

#[derive(Debug, Clone, PartialEq, Eq)]
pub struct SftpBrowserSessionState {
    pub mode: SftpPanelMode,
    pub follow_mode: SftpFollowMode,
    pub current_path: String,
    pub history: SftpPathHistory,
    pub entries: Vec<SftpDirectoryEntry>,
    pub selected_entry_ids: Vec<String>,
    pub last_error: Option<String>,
    pub active_request_id: Option<u64>,
}

impl Default for SftpBrowserSessionState {
    fn default() -> (r: Self)
        ensures
            r.mode == SftpPanelMode::Empty,
            r.follow_mode == SftpFollowMode::FollowCwd,
            r.current_path@ == Seq::<char>::empty(),
            r.history@ == SftpPathHistory::new_model(),
            r.entries@.len() == 0,
            r.selected_entry_ids@.len() == 0,
            r.last_error.is_none(),
            r.active_request_id.is_none(),
    {
        SftpBrowserSessionState {
            mode: SftpPanelMode::Empty,
            follow_mode: SftpFollowMode::FollowCwd,
            current_path: String::new(),
            history: SftpPathHistory::default(),
            entries: Vec::new(),
            selected_entry_ids: Vec::new(),
            last_error: None,
            active_request_id: None,
        }
    }
}

impl SftpBrowserSessionState {
    /// `a` and `b` show the same thing (the history compared by its model).
    pub open spec fn unchanged(a: &Self, b: &Self) -> bool {
        &&& a.mode == b.mode
        &&& a.follow_mode == b.follow_mode
        &&& a.current_path == b.current_path
        &&& a.history@ == b.history@
        &&& a.entries == b.entries
        &&& a.selected_entry_ids == b.selected_entry_ids
        &&& a.last_error == b.last_error
        &&& a.active_request_id == b.active_request_id
    }

    /// A load of `path` has begun under `request_id`.
    pub open spec fn began_load(
        before: &Self,
        after: &Self,
        path: Seq<char>,
        request_id: u64,
        follow: SftpFollowMode,
        mode: SftpPanelMode,
    ) -> bool {
        &&& after.follow_mode == follow
        &&& after.current_path@ == path
        &&& after.history@ == history_push(before.history@, path)
        &&& after.mode == mode
        &&& after.last_error.is_none()
        &&& after.active_request_id == Some(request_id)
        &&& after.entries@ == before.entries@
        &&& after.selected_entry_ids@ == before.selected_entry_ids@
    }

    pub fn set_connecting(&mut self, path: &str, request_id: u64)
        ensures
            Self::began_load(&*old(self), &*final(self), path@, request_id, SftpFollowMode::FollowCwd, SftpPanelMode::Connecting),
    {
        self.follow_mode = SftpFollowMode::FollowCwd;
        self.current_path = String::from_str(path);
        self.history.push(path);
        self.mode = SftpPanelMode::Connecting;
        self.last_error = None;
        self.active_request_id = Some(request_id);
    }

    pub fn set_loading_follow(&mut self, path: &str, request_id: u64)
        ensures
            Self::began_load(&*old(self), &*final(self), path@, request_id, SftpFollowMode::FollowCwd, SftpPanelMode::Loading),
    {
        self.follow_mode = SftpFollowMode::FollowCwd;
        self.current_path = String::from_str(path);
        self.history.push(path);
        self.mode = SftpPanelMode::Loading;
        self.last_error = None;
        self.active_request_id = Some(request_id);
    }

    pub fn set_loading_manual(&mut self, path: &str, request_id: u64)
        ensures
            Self::began_load(&*old(self), &*final(self), path@, request_id, SftpFollowMode::ManualBrowse, SftpPanelMode::Loading),
    {
        self.follow_mode = SftpFollowMode::ManualBrowse;
        self.current_path = String::from_str(path);
        self.history.push(path);
        self.mode = SftpPanelMode::Loading;
        self.last_error = None;
        self.active_request_id = Some(request_id);
    }

    /// A manual navigation that does not touch the history.
    pub open spec fn began_manual_in_place(before: &Self, after: &Self, path: Seq<char>, request_id: u64) -> bool {
        &&& after.follow_mode == SftpFollowMode::ManualBrowse
        &&& after.current_path@ == path
        &&& after.mode == SftpPanelMode::Loading
        &&& after.last_error.is_none()
        &&& after.active_request_id == Some(request_id)
        &&& after.entries@ == before.entries@
        &&& after.selected_entry_ids@ == before.selected_entry_ids@
    }

    pub fn navigate_back(&mut self, request_id: u64) -> (r: Option<String>)
        ensures
            r.is_some() == history_can_back(old(self).history@),
            final(self).history@ == history_back(old(self).history@),
            r is Some ==> Some(r->0@) == history_current(final(self).history@)
                && Self::began_manual_in_place(&*old(self), &*final(self), r->0@, request_id),
            r is None ==> Self::unchanged(&*old(self), &*final(self)),
    {
        let path = match self.history.back() {
            Some(p) => p,
            None => return None,
        };
        self.begin_manual_navigation(path.as_str(), request_id, false);
        Some(path)
    }

    pub fn navigate_forward(&mut self, request_id: u64) -> (r: Option<String>)
        ensures
            r.is_some() == history_can_forward(old(self).history@),
            final(self).history@ == history_forward(old(self).history@),
            r is Some ==> Some(r->0@) == history_current(final(self).history@)
                && Self::began_manual_in_place(&*old(self), &*final(self), r->0@, request_id),
            r is None ==> Self::unchanged(&*old(self), &*final(self)),
    {
        let path = match self.history.forward() {
            Some(p) => p,
            None => return None,
        };
        self.begin_manual_navigation(path.as_str(), request_id, false);
        Some(path)
    }

    pub fn navigate_up(&mut self, request_id: u64) -> (r: Option<String>)
        ensures
            match remote_parent_spec(old(self).current_path@) {
                Some(parent) => r is Some && r->0@ == parent && Self::began_load(
                    &*old(self),
                    &*final(self),
                    parent,
                    request_id,
                    SftpFollowMode::ManualBrowse,
                    SftpPanelMode::Loading,
                ),
                None => r is None && Self::unchanged(&*old(self), &*final(self)),
            },
    {
        let path = match remote_parent_path(self.current_path.as_str()) {
            Some(p) => p,
            None => return None,
        };
        self.begin_manual_navigation(path.as_str(), request_id, true);
        Some(path)
    }

    /// `after` shows the listing `entries` of `path`.
    pub open spec fn readied(before: &Self, after: &Self, path: Seq<char>, entries: Seq<SftpDirectoryEntry>) -> bool {
        &&& after.mode == SftpPanelMode::Ready
        &&& after.current_path@ == path
        &&& after.entries@ == entries
        &&& after.last_error.is_none()
        &&& after.follow_mode == before.follow_mode
        &&& after.history@ == before.history@
        &&& after.selected_entry_ids@ == before.selected_entry_ids@
        &&& after.active_request_id == before.active_request_id
    }

    pub fn set_ready(&mut self, path: &str, entries: Vec<SftpDirectoryEntry>)
        ensures
            Self::readied(&*old(self), &*final(self), path@, entries@),
    {
        self.mode = SftpPanelMode::Ready;
        self.current_path = String::from_str(path);
        self.entries = entries;
        self.last_error = None;
    }

    /// `after` reports that loading `path` failed with `message`.
    pub open spec fn errored(before: &Self, after: &Self, path: Seq<char>, message: String) -> bool {
        &&& after.mode == SftpPanelMode::Error
        &&& after.current_path@ == path
        &&& after.last_error == Some(message)
        &&& after.active_request_id.is_none()
        &&& after.follow_mode == before.follow_mode
        &&& after.history@ == before.history@
        &&& after.entries@ == before.entries@
        &&& after.selected_entry_ids@ == before.selected_entry_ids@
    }

    pub fn set_error(&mut self, path: &str, message: String)
        ensures
            Self::errored(&*old(self), &*final(self), path@, message),
    {
        self.mode = SftpPanelMode::Error;
        self.current_path = String::from_str(path);
        self.last_error = Some(message);
        self.active_request_id = None;
    }

    /// `after` reconnects to `path` under `request_id`.
    pub open spec fn retried(before: &Self, after: &Self, path: Seq<char>, request_id: u64) -> bool {
        &&& after.mode == SftpPanelMode::Connecting
        &&& after.current_path@ == path
        &&& after.last_error.is_none()
        &&& after.active_request_id == Some(request_id)
        &&& after.follow_mode == before.follow_mode
        &&& after.history@ == before.history@
        &&& after.entries@ == before.entries@
        &&& after.selected_entry_ids@ == before.selected_entry_ids@
    }

    pub fn set_retrying(&mut self, path: &str, request_id: u64)
        ensures
            Self::retried(&*old(self), &*final(self), path@, request_id),
    {
        self.current_path = String::from_str(path);
        self.mode = SftpPanelMode::Connecting;
        self.last_error = None;
        self.active_request_id = Some(request_id);
    }

    /// `after` is `before` marked disconnected: no request is awaited any more.
    pub open spec fn disconnected(before: &Self, after: &Self) -> bool {
        &&& after.mode == SftpPanelMode::Disconnected
        &&& after.active_request_id.is_none()
        &&& after.current_path == before.current_path
        &&& after.follow_mode == before.follow_mode
        &&& after.history@ == before.history@
        &&& after.entries@ == before.entries@
        &&& after.selected_entry_ids@ == before.selected_entry_ids@
        &&& after.last_error == before.last_error
    }

    pub fn mark_disconnected(&mut self)
        ensures
            Self::disconnected(&*old(self), &*final(self)),
    {
        self.mode = SftpPanelMode::Disconnected;
        self.active_request_id = None;
    }

    /// Only the answer to the most recently begun request is accepted.
    pub fn accepts_request(&self, request_id: u64) -> (r: bool)
        ensures
            r == (self.active_request_id == Some(request_id)),
    {
        match self.active_request_id {
            Some(id) => id == request_id,
            None => false,
        }
    }

    fn begin_manual_navigation(&mut self, path: &str, request_id: u64, push_history: bool)
        ensures
            final(self).follow_mode == SftpFollowMode::ManualBrowse,
            final(self).current_path@ == path@,
            push_history ==> final(self).history@ == history_push(old(self).history@, path@),
            !push_history ==> final(self).history@ == old(self).history@,
            final(self).mode == SftpPanelMode::Loading,
            final(self).last_error.is_none(),
            final(self).active_request_id == Some(request_id),
            final(self).entries@ == old(self).entries@,
            final(self).selected_entry_ids@ == old(self).selected_entry_ids@,
    {
        self.follow_mode = SftpFollowMode::ManualBrowse;
        self.current_path = String::from_str(path);
        if push_history {
            self.history.push(path);
        }
        self.mode = SftpPanelMode::Loading;
        self.last_error = None;
        self.active_request_id = Some(request_id);
    }
}

} // verus!
