//! Session-bound SFTP panel state and navigation reducers.

use vstd::prelude::*;
use crate::remote_paths::{remote_parent_path, remote_parent_spec};

verus! {

#[derive(Debug, Clone, Copy, PartialEq, Eq, Structural)]
pub enum SftpPanelMode {
    Empty,
    Connecting,
    Loading,
    Ready,
    Disconnected,
    Error,
}

pub open spec fn panel_mode_id(mode: SftpPanelMode) -> Seq<char> {
    match mode {
        SftpPanelMode::Empty => "empty"@,
        SftpPanelMode::Connecting => "connecting"@,
        SftpPanelMode::Loading => "loading"@,
        SftpPanelMode::Ready => "ready"@,
        SftpPanelMode::Disconnected => "disconnected"@,
        SftpPanelMode::Error => "error"@,
    }
}

impl SftpPanelMode {
    pub fn id(self) -> (r: &'static str)
        ensures
            r@ == panel_mode_id(self),
    {
        match self {
            SftpPanelMode::Empty => "empty",
            SftpPanelMode::Connecting => "connecting",
            SftpPanelMode::Loading => "loading",
            SftpPanelMode::Ready => "ready",
            SftpPanelMode::Disconnected => "disconnected",
            SftpPanelMode::Error => "error",
        }
    }
}

#[derive(Debug, Clone, Copy, PartialEq, Eq, Structural)]
pub enum SftpFollowMode {
    FollowCwd,
    ManualBrowse,
}

pub open spec fn follow_mode_id(mode: SftpFollowMode) -> Seq<char> {
    match mode {
        SftpFollowMode::FollowCwd => "follow-cwd"@,
        SftpFollowMode::ManualBrowse => "manual-browse"@,
    }
}

impl SftpFollowMode {
    pub fn id(self) -> (r: &'static str)
        ensures
            r@ == follow_mode_id(self),
    {
        match self {
            SftpFollowMode::FollowCwd => "follow-cwd",
            SftpFollowMode::ManualBrowse => "manual-browse",
        }
    }
}

#[derive(Debug, Clone, Copy, PartialEq, Eq, Structural)]
pub enum SftpDirectoryEntryKind {
    File,
    Directory,
    Symlink,
    Unknown,
}

#[derive(Debug, Clone, PartialEq, Eq)]
pub struct SftpDirectoryEntry {
    pub id: String,
    pub name: String,
    pub path: String,
    pub kind: SftpDirectoryEntryKind,
    pub modified_unix_seconds: Option<u64>,
    pub size_bytes: Option<u64>,
    pub permissions_label: Option<String>,
    pub owner_label: Option<String>,
    pub group_label: Option<String>,
}

fn copy_opt_text(s: &Option<String>) -> (r: Option<String>)
    ensures
        r == *s,
{
    match s {
        Some(v) => Some(v.clone()),
        None => None,
    }
}

impl SftpDirectoryEntry {
    /// A copy of the entry.
    pub fn copy(&self) -> (r: Self)
        ensures
            r == *self,
    {
        SftpDirectoryEntry {
            id: self.id.clone(),
            name: self.name.clone(),
            path: self.path.clone(),
            kind: self.kind,
            modified_unix_seconds: self.modified_unix_seconds,
            size_bytes: self.size_bytes,
            permissions_label: copy_opt_text(&self.permissions_label),
            owner_label: copy_opt_text(&self.owner_label),
            group_label: copy_opt_text(&self.group_label),
        }
    }
}

/// Abstract state of a navigation history: the visited paths and the index of
/// the current one.
pub struct PathHistoryModel {
    pub entries: Seq<Seq<char>>,
    pub cursor: Option<int>,
}

pub open spec fn history_wf(h: PathHistoryModel) -> bool {
    match h.cursor {
        Some(c) => 0 <= c < h.entries.len(),
        None => h.entries.len() == 0,
    }
}

pub open spec fn history_current(h: PathHistoryModel) -> Option<Seq<char>> {
    match h.cursor {
        Some(c) => Some(h.entries[c]),
        None => None,
    }
}

/// Visiting `path`: a no-op when it is already current, otherwise the forward
/// part of the history is dropped and `path` becomes the newest entry.
pub open spec fn history_push(h: PathHistoryModel, path: Seq<char>) -> PathHistoryModel {
    if history_current(h) == Some(path) {
        h
    } else {
        let kept = match h.cursor {
            Some(c) => h.entries.take(c + 1),
            None => Seq::empty(),
        };
        PathHistoryModel { entries: kept.push(path), cursor: Some(kept.len() as int) }
    }
}

pub open spec fn history_can_back(h: PathHistoryModel) -> bool {
    match h.cursor {
        Some(c) => c > 0,
        None => false,
    }
}

pub open spec fn history_can_forward(h: PathHistoryModel) -> bool {
    match h.cursor {
        Some(c) => c + 1 < h.entries.len(),
        None => false,
    }
}

pub open spec fn history_back(h: PathHistoryModel) -> PathHistoryModel {
    if history_can_back(h) {
        PathHistoryModel { entries: h.entries, cursor: Some(h.cursor->0 - 1) }
    } else {
        h
    }
}

pub open spec fn history_forward(h: PathHistoryModel) -> PathHistoryModel {
    if history_can_forward(h) {
        PathHistoryModel { entries: h.entries, cursor: Some(h.cursor->0 + 1) }
    } else {
        h
    }
}

/// Going back and then forward returns to the same place, and so does going
/// forward and then back.
pub proof fn lemma_history_back_forward(h: PathHistoryModel)
    requires
        history_wf(h),
    ensures
        history_can_back(h) ==> history_forward(history_back(h)) == h,
        history_can_forward(h) ==> history_back(history_forward(h)) == h,
{
}

/// After a visit the visited path is current and the history stays well
/// formed. Visiting the current path changes nothing; visiting another one
/// drops what lay ahead and makes the old current path the one to go back to.
pub proof fn lemma_history_push(h: PathHistoryModel, path: Seq<char>)
    requires
        history_wf(h),
    ensures
        history_wf(history_push(h, path)),
        history_current(history_push(h, path)) == Some(path),
        history_current(h) == Some(path) ==> history_push(h, path) == h,
        history_current(h) != Some(path) ==> {
            &&& !history_can_forward(history_push(h, path))
            &&& history_can_back(history_push(h, path)) == (history_current(h) is Some)
            &&& (history_current(h) is Some ==> history_current(history_back(history_push(h, path))) == history_current(h))
        },
{
}

#[derive(Debug, PartialEq, Eq)]
pub struct SftpPathHistory {
    entries: Vec<String>,
    cursor: Option<usize>,
}

impl View for SftpPathHistory {
    type V = PathHistoryModel;

    closed spec fn view(&self) -> PathHistoryModel {
        PathHistoryModel {
            entries: self.entries@.map_values(|e: String| e@),
            cursor: match self.cursor {
                Some(c) => Some(c as int),
                None => None,
            },
        }
    }
}

impl SftpPathHistory {
    closed spec fn cursor_below_len(&self) -> bool {
        match self.cursor {
            Some(c) => c < self.entries.len(),
            None => self.entries.len() == 0,
        }
    }

    proof fn lemma_cursor(&self)
        requires
            history_wf(self@),
        ensures
            self.cursor_below_len(),
    {
        assert(self@.entries.len() == self.entries@.len());
    }

    #[verifier::type_invariant]
    closed spec fn inv(self) -> bool {
        history_wf(self@)
    }

    /// Every history is well formed, so the laws stated over `history_wf`
    /// (`lemma_history_back_forward`, `lemma_history_push`) apply to it. The
    /// call does nothing at run time; it hands the fact to the caller's proof.
    pub fn note_well_formed(&self)
        ensures
            history_wf(self@),
    {
        proof { use_type_invariant(self); }
    }

    /// Whether the history is in the state `model` describes.
    pub closed spec fn is(&self, model: PathHistoryModel) -> bool {
        self@ == model
    }

    pub fn new() -> (h: Self)
        ensures
            h@.entries == Seq::<Seq<char>>::empty(),
            h@.cursor.is_none(),
    {
        let h = SftpPathHistory { entries: Vec::new(), cursor: None };
        assert(h@.entries =~= Seq::<Seq<char>>::empty());
        h
    }

    pub fn with_initial(path: &str) -> (h: Self)
        ensures
            h@ == history_push(SftpPathHistory::new_model(), path@),
            history_current(h@) == Some(path@),
    {
        let mut history = Self::new();
        history.push(path);
        history
    }

    pub open spec fn new_model() -> PathHistoryModel {
        PathHistoryModel { entries: Seq::empty(), cursor: None }
    }

    pub fn entries(&self) -> (r: &[String])
        ensures
            r@.map_values(|e: String| e@) == self@.entries,
    {
        self.entries.as_slice()
    }

    pub fn current(&self) -> (r: Option<&str>)
        ensures
            match r {
                Some(s) => history_current(self@) == Some(s@),
                None => history_current(self@).is_none(),
            },
    {
        proof { use_type_invariant(self); }
        match self.cursor {
            Some(c) => Some(self.entries[c].as_str()),
            None => None,
        }
    }

    pub fn push(&mut self, path: &str)
        ensures
            final(self)@ == history_push(old(self)@, path@),
    {
        proof { use_type_invariant(&*self); }
        let same = match self.current() {
            Some(cur) => crate::text::same_text(cur, path),
            None => false,
        };
        if same {
            return;
        }
        let ghost before = self@;
        let mut old = SftpPathHistory::new();
        std::mem::swap(&mut old, self);
        proof {
            use_type_invariant(&old);
            old.lemma_cursor();
        }
        let SftpPathHistory { mut entries, cursor } = old;
        match cursor {
            Some(c) => entries.truncate(c + 1),
            None => entries.clear(),
        }
        entries.push(String::from_str(path));
        let n = entries.len();
        let next = SftpPathHistory { entries, cursor: Some(n - 1) };
        assert(next@.entries =~= history_push(before, path@).entries);
        *self = next;
    }

    pub fn can_back(&self) -> (r: bool)
        ensures
            r == history_can_back(self@),
    {
        match self.cursor {
            Some(c) => c > 0,
            None => false,
        }
    }

    pub fn can_forward(&self) -> (r: bool)
        ensures
            r == history_can_forward(self@),
    {
        proof {
            use_type_invariant(self);
            self.lemma_cursor();
        }
        match self.cursor {
            Some(c) => c + 1 < self.entries.len(),
            None => false,
        }
    }

    pub fn back(&mut self) -> (r: Option<String>)
        ensures
            final(self)@ == history_back(old(self)@),
            r.is_some() == history_can_back(old(self)@),
            r.is_some() ==> history_current(final(self)@) == Some(r->0@),
    {
        proof { use_type_invariant(&*self); }
        let cursor = match self.cursor {
            Some(c) => c,
            None => return None,
        };
        if cursor == 0 {
            return None;
        }
        self.cursor = Some(cursor - 1);
        let out = self.entries[cursor - 1].clone();
        Some(out)
    }

    pub fn forward(&mut self) -> (r: Option<String>)
        ensures
            final(self)@ == history_forward(old(self)@),
            r.is_some() == history_can_forward(old(self)@),
            r.is_some() ==> history_current(final(self)@) == Some(r->0@),
    {
        proof {
            use_type_invariant(&*self);
            self.lemma_cursor();
        }
        let cursor = match self.cursor {
            Some(c) => c,
            None => return None,
        };
        if cursor + 1 >= self.entries.len() {
            return None;
        }
        self.cursor = Some(cursor + 1);
        let out = self.entries[cursor + 1].clone();
        Some(out)
    }
}

impl Clone for SftpPathHistory {
    fn clone(&self) -> (r: Self)
        ensures
            r@ == self@,
    {
        proof {
            use_type_invariant(self);
            self.lemma_cursor();
        }
        let mut entries: Vec<String> = Vec::new();
        let mut i: usize = 0;
        while i < self.entries.len()
            invariant
                i <= self.entries.len(),
                entries@ =~= self.entries@.take(i as int),
            decreases self.entries.len() - i,
        {
            let e = self.entries[i].clone();
            let ghost before = entries@;
            entries.push(e);
            assert(entries@ =~= before.push(e));
            assert(self.entries@.take(i + 1) =~= self.entries@.take(i as int).push(self.entries@[i as int]));
            i = i + 1;
        }
        assert(self.entries@.take(i as int) =~= self.entries@);
        let r = SftpPathHistory { entries, cursor: self.cursor };
        assert(r@.entries =~= self@.entries);
        r
    }
}

impl Default for SftpPathHistory {
    fn default() -> (h: Self)
        ensures
            h@ == SftpPathHistory::new_model(),
    {
        let h = Self::new();
        assert(h@ =~= SftpPathHistory::new_model());
        h
    }
}


#[derive(Debug, Clone, PartialEq, Eq)]
pub struct SftpSessionBindingState {
    pub mode: SftpPanelMode,
    pub follow_mode: SftpFollowMode,
    pub current_path: String,
    pub history: SftpPathHistory,
    pub entries: Vec<SftpDirectoryEntry>,
    pub selected_entry_ids: Vec<String>,
    pub last_error: Option<String>,
}

impl Default for SftpSessionBindingState {
    fn default() -> (r: Self)
        ensures
            r.mode == SftpPanelMode::Empty,
            r.follow_mode == SftpFollowMode::FollowCwd,
            r.current_path@ == Seq::<char>::empty(),
            r.history@ == SftpPathHistory::new_model(),
            r.entries@.len() == 0,
            r.selected_entry_ids@.len() == 0,
            r.last_error.is_none(),
    {
        SftpSessionBindingState {
            mode: SftpPanelMode::Empty,
            follow_mode: SftpFollowMode::FollowCwd,
            current_path: String::new(),
            history: SftpPathHistory::default(),
            entries: Vec::new(),
            selected_entry_ids: Vec::new(),
            last_error: None,
        }
    }
}

impl SftpSessionBindingState {
    /// Everything but the panel mode is the same in `a` and `b`.
    pub open spec fn same_but_mode(a: &Self, b: &Self) -> bool {
        &&& a.follow_mode == b.follow_mode
        &&& a.current_path@ == b.current_path@
        &&& a.history@ == b.history@
        &&& a.entries@ == b.entries@
        &&& a.selected_entry_ids@ == b.selected_entry_ids@
        &&& a.last_error == b.last_error
    }

    /// The listing, selection and error are the same in `a` and `b`.
    pub open spec fn same_listing(a: &Self, b: &Self) -> bool {
        &&& a.entries@ == b.entries@
        &&& a.selected_entry_ids@ == b.selected_entry_ids@
        &&& a.last_error == b.last_error
    }

    pub fn follow(initial_path: &str) -> (r: Self)
        ensures
            r.mode == SftpPanelMode::Empty,
            r.follow_mode == SftpFollowMode::FollowCwd,
            r.current_path@ == initial_path@,
            r.history@ == history_push(SftpPathHistory::new_model(), initial_path@),
            r.entries@.len() == 0,
            r.selected_entry_ids@.len() == 0,
            r.last_error.is_none(),
    {
        SftpSessionBindingState {
            mode: SftpPanelMode::Empty,
            follow_mode: SftpFollowMode::FollowCwd,
            current_path: String::from_str(initial_path),
            history: SftpPathHistory::with_initial(initial_path),
            entries: Vec::new(),
            selected_entry_ids: Vec::new(),
            last_error: None,
        }
    }

    pub fn mark_connecting(&mut self)
        ensures
            final(self).mode == SftpPanelMode::Connecting,
            Self::same_but_mode(&*final(self), &*old(self)),
    {
        self.mode = SftpPanelMode::Connecting;
    }

    pub fn mark_loading(&mut self)
        ensures
            final(self).mode == SftpPanelMode::Loading,
            Self::same_but_mode(&*final(self), &*old(self)),
    {
        self.mode = SftpPanelMode::Loading;
    }

    pub fn mark_ready(&mut self)
        ensures
            final(self).mode == SftpPanelMode::Ready,
            Self::same_but_mode(&*final(self), &*old(self)),
    {
        self.mode = SftpPanelMode::Ready;
    }

    pub fn mark_disconnected(&mut self)
        ensures
            final(self).mode == SftpPanelMode::Disconnected,
            Self::same_but_mode(&*final(self), &*old(self)),
    {
        self.mode = SftpPanelMode::Disconnected;
    }

    /// Browsing to `path` by hand: following the terminal stops.
    pub fn navigate_manual(&mut self, path: &str)
        ensures
            final(self).follow_mode == SftpFollowMode::ManualBrowse,
            final(self).current_path@ == path@,
            final(self).mode == SftpPanelMode::Ready,
            final(self).history@ == history_push(old(self).history@, path@),
            Self::same_listing(&*final(self), &*old(self)),
    {
        self.follow_mode = SftpFollowMode::ManualBrowse;
        self.current_path = String::from_str(path);
        self.mode = SftpPanelMode::Ready;
        self.history.push(path);
    }

    /// The terminal moved to `path`: followed only in follow mode.
    pub fn follow_terminal_path(&mut self, path: &str)
        ensures
            old(self).follow_mode == SftpFollowMode::FollowCwd ==> {
                &&& final(self).current_path@ == path@
                &&& final(self).history@ == history_push(old(self).history@, path@)
            },
            old(self).follow_mode != SftpFollowMode::FollowCwd ==> {
                &&& final(self).current_path@ == old(self).current_path@
                &&& final(self).history@ == old(self).history@
            },
            final(self).follow_mode == old(self).follow_mode,
            final(self).mode == old(self).mode,
            Self::same_listing(&*final(self), &*old(self)),
    {
        if self.follow_mode != SftpFollowMode::FollowCwd {
            return;
        }
        self.current_path = String::from_str(path);
        self.history.push(path);
    }

    pub fn reenable_follow(&mut self, path: &str)
        ensures
            final(self).follow_mode == SftpFollowMode::FollowCwd,
            final(self).current_path@ == path@,
            final(self).history@ == history_push(old(self).history@, path@),
            final(self).mode == old(self).mode,
            Self::same_listing(&*final(self), &*old(self)),
    {
        self.follow_mode = SftpFollowMode::FollowCwd;
        self.follow_terminal_path(path);
    }

    pub fn navigate_back(&mut self) -> (r: bool)
        ensures
            r == history_can_back(old(self).history@),
            final(self).history@ == history_back(old(self).history@),
            r ==> final(self).follow_mode == SftpFollowMode::ManualBrowse
                && Some(final(self).current_path@) == history_current(final(self).history@),
            !r ==> final(self).follow_mode == old(self).follow_mode
                && final(self).current_path@ == old(self).current_path@,
            final(self).mode == old(self).mode,
            Self::same_listing(&*final(self), &*old(self)),
    {
        match self.history.back() {
            None => false,
            Some(path) => {
                self.follow_mode = SftpFollowMode::ManualBrowse;
                self.current_path = path;
                true
            },
        }
    }

    pub fn navigate_forward(&mut self) -> (r: bool)
        ensures
            r == history_can_forward(old(self).history@),
            final(self).history@ == history_forward(old(self).history@),
            r ==> final(self).follow_mode == SftpFollowMode::ManualBrowse
                && Some(final(self).current_path@) == history_current(final(self).history@),
            !r ==> final(self).follow_mode == old(self).follow_mode
                && final(self).current_path@ == old(self).current_path@,
            final(self).mode == old(self).mode,
            Self::same_listing(&*final(self), &*old(self)),
    {
        match self.history.forward() {
            None => false,
            Some(path) => {
                self.follow_mode = SftpFollowMode::ManualBrowse;
                self.current_path = path;
                true
            },
        }
    }

    pub fn can_navigate_up(&self) -> (r: bool)
        ensures
            r == remote_parent_spec(self.current_path@).is_some(),
    {
        remote_parent_path(self.current_path.as_str()).is_some()
    }

    pub fn navigate_up(&mut self) -> (r: bool)
        ensures
            r == remote_parent_spec(old(self).current_path@).is_some(),
            r ==> {
                let parent = remote_parent_spec(old(self).current_path@)->0;
                &&& final(self).follow_mode == SftpFollowMode::ManualBrowse
                &&& final(self).current_path@ == parent
                &&& final(self).mode == SftpPanelMode::Ready
                &&& final(self).history@ == history_push(old(self).history@, parent)
            },
            !r ==> final(self).follow_mode == old(self).follow_mode
                && final(self).current_path@ == old(self).current_path@
                && final(self).mode == old(self).mode
                && final(self).history@ == old(self).history@,
            Self::same_listing(&*final(self), &*old(self)),
    {
        match remote_parent_path(self.current_path.as_str()) {
            None => false,
            Some(parent) => {
                self.navigate_manual(parent.as_str());
                true
            },
        }
    }
}

} // verus!
