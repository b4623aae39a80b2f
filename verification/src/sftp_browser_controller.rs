//! Routing of SFTP directory loads to browser sessions, and the request
//! numbering that lets stale answers be told apart from current ones.

use vstd::prelude::*;
use std::collections::HashSet;
use crate::format::{uuid_string, uuid_text};
use crate::ids::{uuid_parse, uuid_parse_result};
use crate::sftp_browser_session::FileBrowserSession;
use crate::sftp_browser_state::SftpBrowserSessionState;
use crate::sftp_model::{
    history_back, history_can_back, history_can_forward, history_forward, history_push,
    SftpDirectoryEntry, SftpFollowMode, SftpPanelMode, SftpPathHistory,
};
use crate::remote_paths::remote_parent_spec;
use crate::text::same_text;

verus! {

broadcast use vstd::std_specs::hash::group_hash_axioms;

#[derive(Debug, Clone, PartialEq, Eq)]
pub struct SftpBrowserLoadRequest {
    pub file_browser_session_id: String,
    pub session_id: u128,
    pub path: String,
    pub request_id: u64,
}

#[derive(Debug)]
pub struct SftpBrowserController {
    next_request_id: u64,
    sessions: Vec<(String, SftpBrowserSessionState)>,
    in_flight_request_ids: HashSet<u64>,
}

/// A state as freshly created for a browser session that had none.
pub open spec fn fresh_state(st: SftpBrowserSessionState) -> bool {
    &&& st.mode == SftpPanelMode::Empty
    &&& st.follow_mode == SftpFollowMode::FollowCwd
    &&& st.current_path@ == Seq::<char>::empty()
    &&& st.history@ == SftpPathHistory::new_model()
    &&& st.entries@.len() == 0
    &&& st.selected_entry_ids@.len() == 0
    &&& st.last_error.is_none()
    &&& st.active_request_id.is_none()
}

/// Position of the first `k` in `keys`, or -1.
pub open spec fn key_position(keys: Seq<Seq<char>>, k: Seq<char>) -> int {
    if keys.contains(k) {
        choose|i: int| 0 <= i < keys.len() && keys[i] == k
    } else {
        -1
    }
}

impl SftpBrowserController {
    /// Number of request identifiers handed out so far; the last one handed out
    /// equals it.
    pub closed spec fn issued(&self) -> u64 {
        self.next_request_id
    }

    /// Browser-session identifiers, in the order sessions were first seen.
    pub closed spec fn keys(&self) -> Seq<Seq<char>> {
        self.sessions@.map_values(|e: (String, SftpBrowserSessionState)| e.0@)
    }

    /// The state of each browser session, aligned with `keys`.
    pub closed spec fn states(&self) -> Seq<SftpBrowserSessionState> {
        self.sessions@.map_values(|e: (String, SftpBrowserSessionState)| e.1)
    }

    pub closed spec fn in_flight(&self) -> Set<u64> {
        self.in_flight_request_ids@
    }

    /// Index of the session `k`, or -1 when there is none.
    pub open spec fn index_of(&self, k: Seq<char>) -> int {
        key_position(self.keys(), k)
    }

    /// Each browser session appears once.
    pub open spec fn wf(&self) -> bool {
        &&& self.keys().no_duplicates()
        &&& self.keys().len() == self.states().len()
    }

    /// Only the state at `i` may differ between `a` and `b`, and it is `st`.
    pub open spec fn only_state_changed(a: &Self, b: &Self, i: int, st: SftpBrowserSessionState) -> bool {
        &&& b.keys() == a.keys()
        &&& b.states() == a.states().update(i, st)
        &&& b.in_flight() == a.in_flight()
    }

    proof fn lemma_index(&self, i: int)
        requires
            self.wf(),
            0 <= i < self.keys().len(),
        ensures
            self.index_of(self.keys()[i]) == i,
    {
        let k = self.keys()[i];
        assert(self.keys().contains(k));
        let j = key_position(self.keys(), k);
        assert(0 <= j < self.keys().len() && self.keys()[j] == k);
    }

    pub fn new() -> (r: Self)
        ensures
            r.wf(),
            r.issued() == 0,
            r.keys().len() == 0,
            r.in_flight() == Set::<u64>::empty(),
    {
        let r = SftpBrowserController { next_request_id: 0, sessions: Vec::new(), in_flight_request_ids: HashSet::new() };
        assert(r.keys() =~= Seq::<Seq<char>>::empty());
        assert(r.states() =~= Seq::<SftpBrowserSessionState>::empty());
        r
    }

    fn find(&self, key: &str) -> (r: Option<usize>)
        requires
            self.wf(),
        ensures
            match r {
                Some(i) => i == self.index_of(key@) && i < self.keys().len(),
                None => self.index_of(key@) == -1,
            },
    {
        let mut i: usize = 0;
        while i < self.sessions.len()
            invariant
                i <= self.sessions.len(),
                self.wf(),
                forall|j: int| 0 <= j < i ==> self.keys()[j] != key@,
            decreases self.sessions.len() - i,
        {
            if same_text(self.sessions[i].0.as_str(), key) {
                proof {
                    assert(self.keys()[i as int] == key@);
                    self.lemma_index(i as int);
                }
                return Some(i);
            }
            assert(self.keys()[i as int] == self.sessions@[i as int].0@);
            i = i + 1;
        }
        assert(!self.keys().contains(key@));
        None
    }

    /// The state of a browser session, if it has one.
    pub fn browser_session_state(&self, browser_session_id: &str) -> (r: Option<&SftpBrowserSessionState>)
        requires
            self.wf(),
        ensures
            match r {
                Some(st) => self.index_of(browser_session_id@) >= 0 && *st == self.states()[self.index_of(browser_session_id@)],
                None => self.index_of(browser_session_id@) == -1,
            },
    {
        match self.find(browser_session_id) {
            Some(i) => Some(&self.sessions[i].1),
            None => None,
        }
    }

    pub fn mark_disconnected_browser_session(&mut self, browser_session_id: &str)
        requires
            old(self).wf(),
        ensures
            final(self).wf(),
            final(self).issued() == old(self).issued(),
            old(self).index_of(browser_session_id@) == -1 ==> final(self).keys() == old(self).keys()
                && final(self).states() == old(self).states() && final(self).in_flight() == old(self).in_flight(),
            old(self).index_of(browser_session_id@) >= 0 ==> {
                let i = old(self).index_of(browser_session_id@);
                &&& Self::only_state_changed(&*old(self), &*final(self), i, final(self).states()[i])
                &&& SftpBrowserSessionState::disconnected(&old(self).states()[i], &final(self).states()[i])
            },
    {
        match self.find(browser_session_id) {
            Some(i) => {
                let ghost before = self.states();
                let entry = &mut self.sessions[i];
                entry.1.mark_disconnected();
                assert(self.keys() =~= old(self).keys());
                assert(self.states() =~= before.update(i as int, self.states()[i as int]));
            },
            None => {},
        }
    }

    /// The session `k` is left as it was, or, if it exists, its state is
    /// replaced by one that `rel` relates to the old one.
    pub open spec fn updated_if_present(
        a: &Self,
        b: &Self,
        k: Seq<char>,
        rel: spec_fn(SftpBrowserSessionState, SftpBrowserSessionState) -> bool,
    ) -> bool {
        &&& b.wf()
        &&& b.in_flight() == a.in_flight()
        &&& b.keys() == a.keys()
        &&& a.index_of(k) < 0 ==> b.states() == a.states()
        &&& a.index_of(k) >= 0 ==> {
            let i = a.index_of(k);
            &&& b.states() == a.states().update(i, b.states()[i])
            &&& rel(a.states()[i], b.states()[i])
        }
    }

    /// The session `k`, created fresh when missing, now has a state that `rel`
    /// relates to its previous (or fresh) one.
    pub open spec fn updated_or_created(
        a: &Self,
        b: &Self,
        k: Seq<char>,
        rel: spec_fn(SftpBrowserSessionState, SftpBrowserSessionState) -> bool,
    ) -> bool {
        let i = b.index_of(k);
        &&& b.wf()
        &&& b.in_flight() == a.in_flight()
        &&& 0 <= i < b.keys().len()
        &&& a.index_of(k) >= 0 ==> {
            &&& i == a.index_of(k)
            &&& b.keys() == a.keys()
            &&& b.states() == a.states().update(i, b.states()[i])
            &&& rel(a.states()[i], b.states()[i])
        }
        &&& a.index_of(k) < 0 ==> {
            &&& i == a.keys().len()
            &&& b.keys() == a.keys().push(k)
            &&& b.states().drop_last() == a.states()
            &&& exists|f: SftpBrowserSessionState| fresh_state(f) && rel(f, b.states()[i])
        }
    }

    /// The identifier the next request will carry is one more than `issued`.
    fn next_request_id(&mut self) -> (r: u64)
        requires
            old(self).issued() < u64::MAX,
        ensures
            r == old(self).issued() + 1,
            final(self).issued() == r,
            final(self).keys() == old(self).keys(),
            final(self).states() == old(self).states(),
            final(self).in_flight() == old(self).in_flight(),
    {
        self.next_request_id = self.next_request_id + 1;
        self.next_request_id
    }

    /// Index of the state of `key`, inserting a fresh one first when missing.
    fn ensure_state(&mut self, key: &str) -> (i: usize)
        requires
            old(self).wf(),
        ensures
            final(self).wf(),
            i == final(self).index_of(key@),
            i < final(self).keys().len(),
            final(self).issued() == old(self).issued(),
            final(self).in_flight() == old(self).in_flight(),
            old(self).index_of(key@) >= 0 ==> i == old(self).index_of(key@) && final(self).keys() == old(self).keys()
                && final(self).states() == old(self).states(),
            old(self).index_of(key@) < 0 ==> i == old(self).keys().len() && final(self).keys() == old(self).keys().push(key@)
                && final(self).states().drop_last() == old(self).states()
                && fresh_state(final(self).states()[i as int]),
    {
        match self.find(key) {
            Some(i) => i,
            None => {
                let ghost before = self.keys();
                let ghost before_states = self.states();
                self.sessions.push((String::from_str(key), SftpBrowserSessionState::default()));
                let i = self.sessions.len() - 1;
                assert(self.keys() =~= before.push(key@));
                assert(self.states().drop_last() =~= before_states);
                proof {
                    assert forall|a: int, b: int| 0 <= a < b < self.keys().len() implies self.keys()[a] != self.keys()[b] by {
                        if b == i {
                            assert(!before.contains(key@));
                            assert(before[a] == self.keys()[a]);
                        }
                    }
                    self.lemma_index(i as int);
                }
                i
            },
        }
    }

    fn new_request(&mut self, file_browser_session_id: &str, session_id: u128, path: &str) -> (r: SftpBrowserLoadRequest)
        requires
            old(self).issued() < u64::MAX,
        ensures
            r.file_browser_session_id@ == file_browser_session_id@,
            r.session_id == session_id,
            r.path@ == path@,
            r.request_id == old(self).issued() + 1,
            final(self).issued() == r.request_id,
            final(self).keys() == old(self).keys(),
            final(self).states() == old(self).states(),
            final(self).in_flight() == old(self).in_flight(),
    {
        let request_id = self.next_request_id();
        SftpBrowserLoadRequest {
            file_browser_session_id: String::from_str(file_browser_session_id),
            session_id,
            path: String::from_str(path),
            request_id,
        }
    }

    fn set_state_at(&mut self, i: usize) -> (r: &mut SftpBrowserSessionState)
        requires
            old(self).wf(),
            i < old(self).keys().len(),
        ensures
            *r == old(self).states()[i as int],
            final(self).keys() == old(self).keys(),
            final(self).states() == old(self).states().update(i as int, *final(r)),
            final(self).in_flight() == old(self).in_flight(),
            final(self).issued() == old(self).issued(),
    {
        let entry = &mut self.sessions[i];
        &mut entry.1
    }

    /// Opens (or re-opens) the browser of terminal session `session_id` at `path`.
    pub fn open(&mut self, session_id: u128, path: &str) -> (r: SftpBrowserLoadRequest)
        requires
            old(self).wf(),
            old(self).issued() < u64::MAX,
        ensures
            r.file_browser_session_id@ == uuid_text(session_id),
            r.session_id == session_id,
            r.path@ == path@,
            r.request_id == old(self).issued() + 1,
            final(self).issued() == r.request_id,
            Self::updated_or_created(&*old(self), &*final(self), uuid_text(session_id),
                |x: SftpBrowserSessionState, y: SftpBrowserSessionState|
                SftpBrowserSessionState::began_load(&x, &y, path@, r.request_id, SftpFollowMode::FollowCwd, SftpPanelMode::Connecting)),
    {
        let key = uuid_string(session_id);
        self.open_keyed(key.as_str(), session_id, path)
    }

    fn open_keyed(&mut self, key: &str, session_id: u128, path: &str) -> (r: SftpBrowserLoadRequest)
        requires
            old(self).wf(),
            old(self).issued() < u64::MAX,
        ensures
            r.file_browser_session_id@ == key@,
            r.session_id == session_id,
            r.path@ == path@,
            r.request_id == old(self).issued() + 1,
            final(self).issued() == r.request_id,
            Self::updated_or_created(&*old(self), &*final(self), key@,
                |x: SftpBrowserSessionState, y: SftpBrowserSessionState|
                SftpBrowserSessionState::began_load(&x, &y, path@, r.request_id, SftpFollowMode::FollowCwd, SftpPanelMode::Connecting)),
    {
        let request = self.new_request(key, session_id, path);
        let ghost mid = *self;
        let i = self.ensure_state(key);
        let ghost base = self.states()[i as int];
        let st = self.set_state_at(i);
        st.set_connecting(path, request.request_id);
        proof {
            if mid.index_of(key@) < 0 {
                assert(self.states().drop_last() =~= mid.states());
            }
        }
        request
    }

    /// Opens a browser session whose linked terminal session (if any) is
    /// given by its textual identifier; an unparsable or missing link counts as
    /// the nil identifier.
    pub fn open_file_browser_session(&mut self, browser_session: FileBrowserSession) -> (r: SftpBrowserLoadRequest)
        requires
            old(self).wf(),
            old(self).issued() < u64::MAX,
        ensures
            r.file_browser_session_id@ == browser_session.file_browser_session_id@,
            r.session_id == match browser_session.linked_terminal_session_id {
                Some(t) => match uuid_parse_result(t@) {
                    Some(u) => u,
                    None => 0,
                },
                None => 0,
            },
            r.path@ == browser_session.current_path@,
            r.request_id == old(self).issued() + 1,
            final(self).issued() == r.request_id,
            Self::updated_or_created(&*old(self), &*final(self), browser_session.file_browser_session_id@,
                |x: SftpBrowserSessionState, y: SftpBrowserSessionState|
                SftpBrowserSessionState::began_load(&x, &y, browser_session.current_path@, r.request_id,
                    SftpFollowMode::FollowCwd, SftpPanelMode::Connecting)),
    {
        let session_id = match &browser_session.linked_terminal_session_id {
            Some(t) => match uuid_parse(t.as_str()) {
                Some(u) => u,
                None => 0,
            },
            None => 0,
        };
        self.open_keyed(browser_session.file_browser_session_id.as_str(), session_id, browser_session.current_path.as_str())
    }

    pub fn mark_request_in_flight(&mut self, request_id: u64) -> (r: bool)
        requires
            old(self).wf(),
        ensures
            r == !old(self).in_flight().contains(request_id),
            final(self).in_flight() == old(self).in_flight().insert(request_id),
            final(self).keys() == old(self).keys(),
            final(self).states() == old(self).states(),
            final(self).issued() == old(self).issued(),
            final(self).wf(),
    {
        self.in_flight_request_ids.insert(request_id)
    }

    pub fn complete_request(&mut self, request_id: u64)
        requires
            old(self).wf(),
        ensures
            final(self).in_flight() == old(self).in_flight().remove(request_id),
            final(self).keys() == old(self).keys(),
            final(self).states() == old(self).states(),
            final(self).issued() == old(self).issued(),
            final(self).wf(),
    {
        self.in_flight_request_ids.remove(&request_id);
    }

    pub fn mark_disconnected(&mut self, session_id: u128)
        requires
            old(self).wf(),
        ensures
            final(self).issued() == old(self).issued(),
            Self::updated_if_present(&*old(self), &*final(self), uuid_text(session_id),
                |x: SftpBrowserSessionState, y: SftpBrowserSessionState| SftpBrowserSessionState::disconnected(&x, &y)),
    {
        let key = uuid_string(session_id);
        self.mark_disconnected_browser_session(key.as_str());
    }

    /// Records a failed load, unless `request_id` is not the awaited request.
    pub fn apply_load_error_for_browser_session(&mut self, browser_session_id: &str, request_id: u64, path: &str, message: String)
        requires
            old(self).wf(),
        ensures
            final(self).issued() == old(self).issued(),
            Self::updated_if_present(&*old(self), &*final(self), browser_session_id@,
                |x: SftpBrowserSessionState, y: SftpBrowserSessionState|
                if x.active_request_id == Some(request_id) {
                    SftpBrowserSessionState::errored(&x, &y, path@, message)
                } else {
                    y == x
                }),
    {
        match self.find(browser_session_id) {
            Some(i) => {
                let st = self.set_state_at(i);
                if st.accepts_request(request_id) {
                    st.set_error(path, message);
                }
            },
            None => {},
        }
    }

    pub fn apply_load_error(&mut self, session_id: u128, request_id: u64, path: &str, message: String)
        requires
            old(self).wf(),
        ensures
            final(self).issued() == old(self).issued(),
            Self::updated_if_present(&*old(self), &*final(self), uuid_text(session_id),
                |x: SftpBrowserSessionState, y: SftpBrowserSessionState|
                if x.active_request_id == Some(request_id) {
                    SftpBrowserSessionState::errored(&x, &y, path@, message)
                } else {
                    y == x
                }),
    {
        let key = uuid_string(session_id);
        self.apply_load_error_for_browser_session(key.as_str(), request_id, path, message);
    }

    /// Shows a loaded listing, unless `request_id` is not the awaited request.
    pub fn apply_loaded_directory_for_browser_session(
        &mut self,
        browser_session_id: &str,
        request_id: u64,
        path: &str,
        entries: Vec<SftpDirectoryEntry>,
    )
        requires
            old(self).wf(),
        ensures
            final(self).issued() == old(self).issued(),
            Self::updated_if_present(&*old(self), &*final(self), browser_session_id@,
                |x: SftpBrowserSessionState, y: SftpBrowserSessionState|
                if x.active_request_id == Some(request_id) {
                    SftpBrowserSessionState::readied(&x, &y, path@, entries@)
                } else {
                    y == x
                }),
    {
        match self.find(browser_session_id) {
            Some(i) => {
                let st = self.set_state_at(i);
                if st.accepts_request(request_id) {
                    st.set_ready(path, entries);
                }
            },
            None => {},
        }
    }

    pub fn apply_loaded_directory(&mut self, session_id: u128, request_id: u64, path: &str, entries: Vec<SftpDirectoryEntry>)
        requires
            old(self).wf(),
        ensures
            final(self).issued() == old(self).issued(),
            Self::updated_if_present(&*old(self), &*final(self), uuid_text(session_id),
                |x: SftpBrowserSessionState, y: SftpBrowserSessionState|
                if x.active_request_id == Some(request_id) {
                    SftpBrowserSessionState::readied(&x, &y, path@, entries@)
                } else {
                    y == x
                }),
    {
        let key = uuid_string(session_id);
        self.apply_loaded_directory_for_browser_session(key.as_str(), request_id, path, entries);
    }

    pub fn session_state(&self, session_id: u128) -> (r: Option<&SftpBrowserSessionState>)
        requires
            self.wf(),
        ensures
            match r {
                Some(st) => self.index_of(uuid_text(session_id)) >= 0
                    && *st == self.states()[self.index_of(uuid_text(session_id))],
                None => self.index_of(uuid_text(session_id)) == -1,
            },
    {
        let key = uuid_string(session_id);
        match self.find(key.as_str()) {
            Some(i) => Some(&self.sessions[i].1),
            None => None,
        }
    }

    /// The request still awaited by a browser session, rebuilt from its state.
    pub fn pending_request_for_browser_session(&self, browser_session_id: &str, session_id: u128) -> (r: Option<SftpBrowserLoadRequest>)
        requires
            self.wf(),
        ensures
            match r {
                Some(req) => {
                    let i = self.index_of(browser_session_id@);
                    &&& i >= 0
                    &&& self.states()[i].active_request_id == Some(req.request_id)
                    &&& self.states()[i].current_path@.len() > 0
                    &&& req.path@ == self.states()[i].current_path@
                    &&& req.file_browser_session_id@ == browser_session_id@
                    &&& req.session_id == session_id
                },
                None => {
                    let i = self.index_of(browser_session_id@);
                    i < 0 || self.states()[i].active_request_id.is_none() || self.states()[i].current_path@.len() == 0
                },
            },
    {
        let i = match self.find(browser_session_id) {
            Some(i) => i,
            None => return None,
        };
        let st = &self.sessions[i].1;
        let request_id = match st.active_request_id {
            Some(id) => id,
            None => return None,
        };
        if st.current_path.unicode_len() == 0 {
            return None;
        }
        Some(SftpBrowserLoadRequest {
            file_browser_session_id: String::from_str(browser_session_id),
            session_id,
            path: st.current_path.clone(),
            request_id,
        })
    }

    pub fn pending_request(&self, session_id: u128) -> (r: Option<SftpBrowserLoadRequest>)
        requires
            self.wf(),
        ensures
            match r {
                Some(req) => {
                    let i = self.index_of(uuid_text(session_id));
                    &&& i >= 0
                    &&& self.states()[i].active_request_id == Some(req.request_id)
                    &&& self.states()[i].current_path@.len() > 0
                    &&& req.path@ == self.states()[i].current_path@
                    &&& req.file_browser_session_id@ == uuid_text(session_id)
                    &&& req.session_id == session_id
                },
                None => {
                    let i = self.index_of(uuid_text(session_id));
                    i < 0 || self.states()[i].active_request_id.is_none() || self.states()[i].current_path@.len() == 0
                },
            },
    {
        let key = uuid_string(session_id);
        self.pending_request_for_browser_session(key.as_str(), session_id)
    }

    /// Opens `path` by hand in the browser of `session_id`.
    pub fn navigate(&mut self, session_id: u128, path: &str) -> (r: SftpBrowserLoadRequest)
        requires
            old(self).wf(),
            old(self).issued() < u64::MAX,
        ensures
            r.file_browser_session_id@ == uuid_text(session_id),
            r.session_id == session_id,
            r.path@ == path@,
            r.request_id == old(self).issued() + 1,
            final(self).issued() == r.request_id,
            Self::updated_or_created(&*old(self), &*final(self), uuid_text(session_id),
                |x: SftpBrowserSessionState, y: SftpBrowserSessionState|
                SftpBrowserSessionState::began_load(&x, &y, path@, r.request_id, SftpFollowMode::ManualBrowse, SftpPanelMode::Loading)),
    {
        let key = uuid_string(session_id);
        let request = self.new_request(key.as_str(), session_id, path);
        let ghost mid = *self;
        let i = self.ensure_state(key.as_str());
        let st = self.set_state_at(i);
        st.set_loading_manual(path, request.request_id);
        proof {
            if mid.index_of(key@) < 0 {
                assert(self.states().drop_last() =~= mid.states());
            }
        }
        request
    }

    /// The terminal of `session_id` changed directory to `path`: the browser
    /// follows unless it is browsing by hand or already shows `path`. A state is
    /// created for the session either way.
    pub fn follow_cwd(&mut self, session_id: u128, path: &str) -> (r: Option<SftpBrowserLoadRequest>)
        requires
            old(self).wf(),
            old(self).issued() < u64::MAX,
        ensures
            match r {
                Some(req) => {
                    &&& req.file_browser_session_id@ == uuid_text(session_id)
                    &&& req.session_id == session_id
                    &&& req.path@ == path@
                    &&& req.request_id == old(self).issued() + 1
                    &&& final(self).issued() == req.request_id
                    &&& Self::updated_or_created(&*old(self), &*final(self), uuid_text(session_id),
                        |x: SftpBrowserSessionState, y: SftpBrowserSessionState|
                        (x.current_path@.len() == 0 || x.follow_mode == SftpFollowMode::FollowCwd)
                        && x.current_path@ != path@
                        && SftpBrowserSessionState::began_load(&x, &y, path@, req.request_id, SftpFollowMode::FollowCwd, SftpPanelMode::Loading))
                },
                None => {
                    &&& final(self).issued() == old(self).issued()
                    &&& Self::updated_or_created(&*old(self), &*final(self), uuid_text(session_id),
                        |x: SftpBrowserSessionState, y: SftpBrowserSessionState|
                        y == x && ((x.current_path@.len() > 0 && x.follow_mode != SftpFollowMode::FollowCwd) || x.current_path@ == path@))
                },
            },
    {
        let key = uuid_string(session_id);
        let ghost start = *self;
        let i = self.ensure_state(key.as_str());
        let ghost mid = *self;
        let skip = {
            let st = &self.sessions[i].1;
            (st.current_path.unicode_len() > 0 && st.follow_mode != SftpFollowMode::FollowCwd)
                || same_text(st.current_path.as_str(), path)
        };
        if skip {
            proof {
                if start.index_of(key@) < 0 {
                    assert(self.states().drop_last() =~= start.states());
                } else {
                    assert(self.states() =~= start.states().update(i as int, self.states()[i as int]));
                }
            }
            return None;
        }
        let request = self.new_request(key.as_str(), session_id, path);
        proof { self.lemma_index(i as int); }
        let st = self.set_state_at(i);
        st.set_loading_follow(path, request.request_id);
        proof {
            if start.index_of(key@) < 0 {
                assert(self.states().drop_last() =~= start.states());
            }
        }
        Some(request)
    }

    /// Reloads what the browser of `session_id` shows, in its current mode.
    pub fn refresh(&mut self, session_id: u128) -> (r: Option<SftpBrowserLoadRequest>)
        requires
            old(self).wf(),
            old(self).issued() < u64::MAX,
        ensures
            match r {
                Some(req) => {
                    let i = old(self).index_of(uuid_text(session_id));
                    let was = old(self).states()[i];
                    &&& i >= 0
                    &&& was.current_path@.len() > 0
                    &&& req.file_browser_session_id@ == uuid_text(session_id)
                    &&& req.session_id == session_id
                    &&& req.path@ == was.current_path@
                    &&& req.request_id == old(self).issued() + 1
                    &&& final(self).issued() == req.request_id
                    &&& Self::updated_if_present(&*old(self), &*final(self), uuid_text(session_id),
                        |x: SftpBrowserSessionState, y: SftpBrowserSessionState|
                        SftpBrowserSessionState::began_load(&x, &y, x.current_path@, req.request_id, x.follow_mode,
                            SftpPanelMode::Loading))
                },
                None => {
                    let i = old(self).index_of(uuid_text(session_id));
                    &&& i < 0 || old(self).states()[i].current_path@.len() == 0
                    &&& final(self).issued() == old(self).issued()
                    &&& final(self).keys() == old(self).keys()
                    &&& final(self).states() == old(self).states()
                    &&& final(self).in_flight() == old(self).in_flight()
                },
            },
    {
        let key = uuid_string(session_id);
        let i = match self.find(key.as_str()) {
            Some(i) => i,
            None => return None,
        };
        let path = self.sessions[i].1.current_path.clone();
        if path.unicode_len() == 0 {
            return None;
        }
        let follow = self.sessions[i].1.follow_mode;
        let request = self.new_request(key.as_str(), session_id, path.as_str());
        let st = self.set_state_at(i);
        if follow == SftpFollowMode::FollowCwd {
            st.set_loading_follow(path.as_str(), request.request_id);
        } else {
            st.set_loading_manual(path.as_str(), request.request_id);
        }
        Some(request)
    }

    /// Reconnects the browser of `session_id` at its current path.
    pub fn retry(&mut self, session_id: u128) -> (r: Option<SftpBrowserLoadRequest>)
        requires
            old(self).wf(),
            old(self).issued() < u64::MAX,
        ensures
            match r {
                Some(req) => {
                    let i = old(self).index_of(uuid_text(session_id));
                    let was = old(self).states()[i];
                    &&& i >= 0
                    &&& was.current_path@.len() > 0
                    &&& req.file_browser_session_id@ == uuid_text(session_id)
                    &&& req.session_id == session_id
                    &&& req.path@ == was.current_path@
                    &&& req.request_id == old(self).issued() + 1
                    &&& final(self).issued() == req.request_id
                    &&& Self::updated_if_present(&*old(self), &*final(self), uuid_text(session_id),
                        |x: SftpBrowserSessionState, y: SftpBrowserSessionState|
                        SftpBrowserSessionState::retried(&x, &y, x.current_path@, req.request_id))
                },
                None => {
                    let i = old(self).index_of(uuid_text(session_id));
                    &&& i < 0 || old(self).states()[i].current_path@.len() == 0
                    &&& final(self).issued() == old(self).issued()
                    &&& final(self).keys() == old(self).keys()
                    &&& final(self).states() == old(self).states()
                    &&& final(self).in_flight() == old(self).in_flight()
                },
            },
    {
        let key = uuid_string(session_id);
        let i = match self.find(key.as_str()) {
            Some(i) => i,
            None => return None,
        };
        let path = self.sessions[i].1.current_path.clone();
        if path.unicode_len() == 0 {
            return None;
        }
        let request = self.new_request(key.as_str(), session_id, path.as_str());
        let st = self.set_state_at(i);
        st.set_retrying(path.as_str(), request.request_id);
        Some(request)
    }

    /// Same as `refresh`, but loads with the follow mode chosen by the terminal:
    /// the browser of `session_id` became visible again.
    pub fn session_activated(&mut self, session_id: u128) -> (r: Option<SftpBrowserLoadRequest>)
        requires
            old(self).wf(),
            old(self).issued() < u64::MAX,
        ensures
            match r {
                Some(req) => {
                    let i = old(self).index_of(uuid_text(session_id));
                    let was = old(self).states()[i];
                    &&& i >= 0
                    &&& was.current_path@.len() > 0
                    &&& req.file_browser_session_id@ == uuid_text(session_id)
                    &&& req.session_id == session_id
                    &&& req.path@ == was.current_path@
                    &&& req.request_id == old(self).issued() + 1
                    &&& final(self).issued() == req.request_id
                    &&& Self::updated_if_present(&*old(self), &*final(self), uuid_text(session_id),
                        |x: SftpBrowserSessionState, y: SftpBrowserSessionState|
                        SftpBrowserSessionState::began_load(&x, &y, x.current_path@, req.request_id,
                            SftpFollowMode::FollowCwd, SftpPanelMode::Loading))
                },
                None => {
                    let i = old(self).index_of(uuid_text(session_id));
                    &&& i < 0 || old(self).states()[i].current_path@.len() == 0
                    &&& final(self).issued() == old(self).issued()
                    &&& final(self).keys() == old(self).keys()
                    &&& final(self).states() == old(self).states()
                    &&& final(self).in_flight() == old(self).in_flight()
                },
            },
    {
        let key = uuid_string(session_id);
        let i = match self.find(key.as_str()) {
            Some(i) => i,
            None => return None,
        };
        let path = self.sessions[i].1.current_path.clone();
        if path.unicode_len() == 0 {
            return None;
        }
        let request = self.new_request(key.as_str(), session_id, path.as_str());
        let st = self.set_state_at(i);
        st.set_loading_follow(path.as_str(), request.request_id);
        Some(request)
    }

    /// Goes back in the history of the browser of `session_id`. A request
    /// identifier is used up even when there is nothing to go back to.
    pub fn navigate_back(&mut self, session_id: u128) -> (r: Option<SftpBrowserLoadRequest>)
        requires
            old(self).wf(),
            old(self).issued() < u64::MAX,
        ensures
            final(self).issued() == old(self).issued() + 1,
            Self::updated_if_present(&*old(self), &*final(self), uuid_text(session_id),
                |x: SftpBrowserSessionState, y: SftpBrowserSessionState|
                y.history@ == history_back(x.history@)
                && (history_can_back(x.history@) ==> SftpBrowserSessionState::began_manual_in_place(&x, &y,
                    y.current_path@, (old(self).issued() + 1) as u64))
                && (!history_can_back(x.history@) ==> SftpBrowserSessionState::unchanged(&x, &y))),
            match r {
                Some(req) => {
                    let i = old(self).index_of(uuid_text(session_id));
                    &&& i >= 0
                    &&& history_can_back(old(self).states()[i].history@)
                    &&& req.file_browser_session_id@ == uuid_text(session_id)
                    &&& req.session_id == session_id
                    &&& req.request_id == old(self).issued() + 1
                    &&& req.path@ == final(self).states()[i].current_path@
                },
                None => {
                    let i = old(self).index_of(uuid_text(session_id));
                    i < 0 || !history_can_back(old(self).states()[i].history@)
                },
            },
    {
        let request_id = self.next_request_id();
        let key = uuid_string(session_id);
        let i = match self.find(key.as_str()) {
            Some(i) => i,
            None => return None,
        };
        let st = self.set_state_at(i);
        let path = match st.navigate_back(request_id) {
            Some(p) => p,
            None => return None,
        };
        Some(SftpBrowserLoadRequest { file_browser_session_id: key, session_id, path, request_id })
    }

    /// Goes forward in the history of the browser of `session_id`. A request
    /// identifier is used up even when there is nothing to go forward to.
    pub fn navigate_forward(&mut self, session_id: u128) -> (r: Option<SftpBrowserLoadRequest>)
        requires
            old(self).wf(),
            old(self).issued() < u64::MAX,
        ensures
            final(self).issued() == old(self).issued() + 1,
            Self::updated_if_present(&*old(self), &*final(self), uuid_text(session_id),
                |x: SftpBrowserSessionState, y: SftpBrowserSessionState|
                y.history@ == history_forward(x.history@)
                && (history_can_forward(x.history@) ==> SftpBrowserSessionState::began_manual_in_place(&x, &y,
                    y.current_path@, (old(self).issued() + 1) as u64))
                && (!history_can_forward(x.history@) ==> SftpBrowserSessionState::unchanged(&x, &y))),
            match r {
                Some(req) => {
                    let i = old(self).index_of(uuid_text(session_id));
                    &&& i >= 0
                    &&& history_can_forward(old(self).states()[i].history@)
                    &&& req.file_browser_session_id@ == uuid_text(session_id)
                    &&& req.session_id == session_id
                    &&& req.request_id == old(self).issued() + 1
                    &&& req.path@ == final(self).states()[i].current_path@
                },
                None => {
                    let i = old(self).index_of(uuid_text(session_id));
                    i < 0 || !history_can_forward(old(self).states()[i].history@)
                },
            },
    {
        let request_id = self.next_request_id();
        let key = uuid_string(session_id);
        let i = match self.find(key.as_str()) {
            Some(i) => i,
            None => return None,
        };
        let st = self.set_state_at(i);
        let path = match st.navigate_forward(request_id) {
            Some(p) => p,
            None => return None,
        };
        Some(SftpBrowserLoadRequest { file_browser_session_id: key, session_id, path, request_id })
    }

    /// Goes to the parent of what the browser of `session_id` shows. A request
    /// identifier is used up even when there is no parent.
    pub fn navigate_up(&mut self, session_id: u128) -> (r: Option<SftpBrowserLoadRequest>)
        requires
            old(self).wf(),
            old(self).issued() < u64::MAX,
        ensures
            final(self).issued() == old(self).issued() + 1,
            Self::updated_if_present(&*old(self), &*final(self), uuid_text(session_id),
                |x: SftpBrowserSessionState, y: SftpBrowserSessionState|
                match remote_parent_spec(x.current_path@) {
                    Some(parent) => SftpBrowserSessionState::began_load(&x, &y, parent, (old(self).issued() + 1) as u64,
                        SftpFollowMode::ManualBrowse, SftpPanelMode::Loading),
                    None => SftpBrowserSessionState::unchanged(&x, &y),
                }),
            match r {
                Some(req) => {
                    let i = old(self).index_of(uuid_text(session_id));
                    &&& i >= 0
                    &&& remote_parent_spec(old(self).states()[i].current_path@) == Some(req.path@)
                    &&& req.file_browser_session_id@ == uuid_text(session_id)
                    &&& req.session_id == session_id
                    &&& req.request_id == old(self).issued() + 1
                },
                None => {
                    let i = old(self).index_of(uuid_text(session_id));
                    i < 0 || remote_parent_spec(old(self).states()[i].current_path@).is_none()
                },
            },
    {
        let request_id = self.next_request_id();
        let key = uuid_string(session_id);
        let i = match self.find(key.as_str()) {
            Some(i) => i,
            None => return None,
        };
        let st = self.set_state_at(i);
        let path = match st.navigate_up(request_id) {
            Some(p) => p,
            None => return None,
        };
        Some(SftpBrowserLoadRequest { file_browser_session_id: key, session_id, path, request_id })
    }
}

} // verus!
