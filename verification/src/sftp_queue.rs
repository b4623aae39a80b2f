//! Transfer queue primitives for SFTP operations: queued uploads, downloads,
//! deletions and moves, their states, and the counts shown to the user.

use vstd::prelude::*;
use crate::format::{uuid_string, uuid_text};
use crate::ids::uuid_new_v4;
use crate::remote_paths::{
    build_local_download_path, build_remote_upload_path, local_download_path_spec, remote_upload_path_spec,
};
use crate::seqs::{first_where, lemma_filter_push, lemma_filter_take_step, lemma_first_where_is};
use crate::sftp_model::{SftpDirectoryEntry, SftpDirectoryEntryKind};
use crate::text::same_text;

verus! {

#[derive(Debug, Clone, Copy, PartialEq, Eq, Structural)]
pub enum TransferDirection {
    Upload,
    Download,
    Delete,
    Move,
}

#[derive(Debug, Clone, Copy, PartialEq, Eq, Structural)]
pub enum TransferConflictPolicy {
    Overwrite,
    Skip,
}

#[derive(Debug, Clone, PartialEq, Eq)]
pub enum TransferTaskAction {
    Upload { local_path: String },
    Download { local_path: String },
    DownloadDirectory { local_path: String },
    Delete { entry_kind: SftpDirectoryEntryKind },
    Move,
}

#[derive(Debug, Clone, Copy, PartialEq, Eq, Structural)]
pub enum TransferTaskState {
    Queued,
    Running,
    Paused,
    Completed,
    Failed,
    Cancelled,
    Conflict,
}

pub open spec fn state_is_active(s: TransferTaskState) -> bool {
    s == TransferTaskState::Queued || s == TransferTaskState::Running || s == TransferTaskState::Paused
}

pub open spec fn state_needs_attention(s: TransferTaskState) -> bool {
    s == TransferTaskState::Failed || s == TransferTaskState::Conflict
}

pub open spec fn task_state_id(s: TransferTaskState) -> Seq<char> {
    match s {
        TransferTaskState::Queued => "queued"@,
        TransferTaskState::Running => "running"@,
        TransferTaskState::Paused => "paused"@,
        TransferTaskState::Completed => "completed"@,
        TransferTaskState::Failed => "failed"@,
        TransferTaskState::Cancelled => "cancelled"@,
        TransferTaskState::Conflict => "conflict"@,
    }
}

impl TransferTaskState {
    pub fn is_active(self) -> (r: bool)
        ensures
            r == state_is_active(self),
    {
        match self {
            TransferTaskState::Queued | TransferTaskState::Running | TransferTaskState::Paused => true,
            _ => false,
        }
    }

    pub fn needs_attention(self) -> (r: bool)
        ensures
            r == state_needs_attention(self),
    {
        match self {
            TransferTaskState::Failed | TransferTaskState::Conflict => true,
            _ => false,
        }
    }

    pub fn id(self) -> (r: &'static str)
        ensures
            r@ == task_state_id(self),
    {
        match self {
            TransferTaskState::Queued => "queued",
            TransferTaskState::Running => "running",
            TransferTaskState::Paused => "paused",
            TransferTaskState::Completed => "completed",
            TransferTaskState::Failed => "failed",
            TransferTaskState::Cancelled => "cancelled",
            TransferTaskState::Conflict => "conflict",
        }
    }
}

#[derive(Debug, Clone, PartialEq, Eq)]
pub struct DownloadTransferEntry {
    pub remote_path: String,
    pub local_path: String,
    pub entry_kind: SftpDirectoryEntryKind,
    pub bytes_total: u64,
}

/// A local file selected for upload: where it is, where it sits relative to
/// the selected root, and its size.
#[derive(Debug, Clone, PartialEq, Eq)]
pub struct LocalTransferEntry {
    pub local_path: String,
    pub relative_path: String,
    pub bytes_total: u64,
}

#[derive(Debug, Clone, PartialEq, Eq)]
pub struct TransferTask {
    pub id: String,
    pub session_id: String,
    pub source_path: String,
    pub target_path: String,
    pub direction: TransferDirection,
    pub action: TransferTaskAction,
    pub state: TransferTaskState,
    pub bytes_total: u64,
    pub bytes_transferred: u64,
    pub conflict_policy: Option<TransferConflictPolicy>,
    pub error_message: Option<String>,
}

#[derive(Debug, Clone, PartialEq, Eq, Default)]
pub struct TransferQueueSummary {
    pub total_count: usize,
    pub active_count: usize,
    pub queued_count: usize,
    pub running_count: usize,
    pub paused_count: usize,
    pub completed_count: usize,
    pub failed_count: usize,
    pub current_session_count: usize,
}

pub open spec fn has_state(s: TransferTaskState) -> spec_fn(TransferTask) -> bool {
    |t: TransferTask| t.state == s
}

pub open spec fn is_active_task() -> spec_fn(TransferTask) -> bool {
    |t: TransferTask| state_is_active(t.state)
}

pub open spec fn needs_attention_task() -> spec_fn(TransferTask) -> bool {
    |t: TransferTask| state_needs_attention(t.state)
}

pub open spec fn in_session(session_id: Seq<char>) -> spec_fn(TransferTask) -> bool {
    |t: TransferTask| t.session_id@ == session_id
}

pub open spec fn has_id(id: Seq<char>) -> spec_fn(TransferTask) -> bool {
    |t: TransferTask| t.id@ == id
}

/// The summary that `from_tasks` computes.
pub open spec fn summary_of(tasks: Seq<TransferTask>, current: Option<Seq<char>>) -> TransferQueueSummary {
    TransferQueueSummary {
        total_count: tasks.len() as usize,
        active_count: tasks.filter(is_active_task()).len() as usize,
        queued_count: tasks.filter(has_state(TransferTaskState::Queued)).len() as usize,
        running_count: tasks.filter(has_state(TransferTaskState::Running)).len() as usize,
        paused_count: tasks.filter(has_state(TransferTaskState::Paused)).len() as usize,
        completed_count: tasks.filter(has_state(TransferTaskState::Completed)).len() as usize,
        failed_count: tasks.filter(needs_attention_task()).len() as usize,
        current_session_count: match current {
            Some(id) => tasks.filter(in_session(id)).len() as usize,
            None => 0,
        },
    }
}

/// A task is active exactly when it is queued, running or paused, so the
/// active tasks are the queued ones, the running ones and the paused ones
/// together.
pub proof fn lemma_active_tasks_are_queued_running_paused(tasks: Seq<TransferTask>)
    ensures
        tasks.filter(is_active_task()).len() == tasks.filter(has_state(TransferTaskState::Queued)).len()
            + tasks.filter(has_state(TransferTaskState::Running)).len()
            + tasks.filter(has_state(TransferTaskState::Paused)).len(),
    decreases tasks.len(),
{
    if tasks.len() > 0 {
        let rest = tasks.drop_last();
        let t = tasks.last();
        lemma_active_tasks_are_queued_running_paused(rest);
        assert(rest.push(t) =~= tasks);
        lemma_filter_push(rest, t, is_active_task());
        lemma_filter_push(rest, t, has_state(TransferTaskState::Queued));
        lemma_filter_push(rest, t, has_state(TransferTaskState::Running));
        lemma_filter_push(rest, t, has_state(TransferTaskState::Paused));
    }
}

/// In a summary the active count is the queued, running and paused counts
/// together, none of them above the total.
pub proof fn lemma_summary_active_count(tasks: Seq<TransferTask>, current: Option<Seq<char>>)
    requires
        tasks.len() <= usize::MAX,
    ensures
        ({
            let sm = summary_of(tasks, current);
            &&& sm.active_count == sm.queued_count + sm.running_count + sm.paused_count
            &&& sm.total_count == tasks.len()
            &&& sm.active_count <= sm.total_count
            &&& sm.queued_count == tasks.filter(|t: TransferTask| t.state == TransferTaskState::Queued).len()
            &&& sm.running_count == tasks.filter(|t: TransferTask| t.state == TransferTaskState::Running).len()
            &&& sm.paused_count == tasks.filter(|t: TransferTask| t.state == TransferTaskState::Paused).len()
        }),
{
    lemma_active_tasks_are_queued_running_paused(tasks);
    tasks.lemma_filter_len(is_active_task());
    tasks.lemma_filter_len(has_state(TransferTaskState::Queued));
    tasks.lemma_filter_len(has_state(TransferTaskState::Running));
    tasks.lemma_filter_len(has_state(TransferTaskState::Paused));
    assert(has_state(TransferTaskState::Queued) == |t: TransferTask| t.state == TransferTaskState::Queued);
    assert(has_state(TransferTaskState::Running) == |t: TransferTask| t.state == TransferTaskState::Running);
    assert(has_state(TransferTaskState::Paused) == |t: TransferTask| t.state == TransferTaskState::Paused);
}

pub open spec fn opt_str_view(s: Option<&str>) -> Option<Seq<char>> {
    match s {
        Some(x) => Some(x@),
        None => None,
    }
}

impl TransferQueueSummary {
    pub fn from_tasks(tasks: &[TransferTask], current_session_id: Option<&str>) -> (r: Self)
        ensures
            r == summary_of(tasks@, opt_str_view(current_session_id)),
            r.active_count == r.queued_count + r.running_count + r.paused_count,
            r.active_count <= r.total_count,
    {
        let total: usize = tasks.len();
        proof {
            lemma_summary_active_count(tasks@, opt_str_view(current_session_id));
        }
        let ghost s = tasks@;
        let mut active: usize = 0;
        let mut queued: usize = 0;
        let mut running: usize = 0;
        let mut paused: usize = 0;
        let mut completed: usize = 0;
        let mut failed: usize = 0;
        let mut current: usize = 0;
        let mut i: usize = 0;
        while i < tasks.len()
            invariant
                i <= tasks.len(),
                s == tasks@,
                active == s.take(i as int).filter(is_active_task()).len(),
                queued == s.take(i as int).filter(has_state(TransferTaskState::Queued)).len(),
                running == s.take(i as int).filter(has_state(TransferTaskState::Running)).len(),
                paused == s.take(i as int).filter(has_state(TransferTaskState::Paused)).len(),
                completed == s.take(i as int).filter(has_state(TransferTaskState::Completed)).len(),
                failed == s.take(i as int).filter(needs_attention_task()).len(),
                current == match opt_str_view(current_session_id) {
                    Some(id) => s.take(i as int).filter(in_session(id)).len(),
                    None => 0,
                },
                active <= i && queued <= i && running <= i && paused <= i,
                completed <= i && failed <= i && current <= i,
            decreases tasks.len() - i,
        {
            let t = &tasks[i];
            proof {
                lemma_filter_take_step(s, i as int, is_active_task());
                lemma_filter_take_step(s, i as int, has_state(TransferTaskState::Queued));
                lemma_filter_take_step(s, i as int, has_state(TransferTaskState::Running));
                lemma_filter_take_step(s, i as int, has_state(TransferTaskState::Paused));
                lemma_filter_take_step(s, i as int, has_state(TransferTaskState::Completed));
                lemma_filter_take_step(s, i as int, needs_attention_task());
                if let Some(id) = opt_str_view(current_session_id) {
                    lemma_filter_take_step(s, i as int, in_session(id));
                }
            }
            if t.state.is_active() {
                active = active + 1;
            }
            if t.state == TransferTaskState::Queued {
                queued = queued + 1;
            }
            if t.state == TransferTaskState::Running {
                running = running + 1;
            }
            if t.state == TransferTaskState::Paused {
                paused = paused + 1;
            }
            if t.state == TransferTaskState::Completed {
                completed = completed + 1;
            }
            if t.state.needs_attention() {
                failed = failed + 1;
            }
            match current_session_id {
                Some(id) => {
                    if same_text(t.session_id.as_str(), id) {
                        current = current + 1;
                    }
                },
                None => {},
            }
            i = i + 1;
        }
        assert(s.take(i as int) =~= s);
        TransferQueueSummary {
            total_count: total,
            active_count: active,
            queued_count: queued,
            running_count: running,
            paused_count: paused,
            completed_count: completed,
            failed_count: failed,
            current_session_count: current,
        }
    }
}


/// `after` is `before` in state `state` with the error message `message`.
pub open spec fn flagged(before: TransferTask, after: TransferTask, state: TransferTaskState, message: Seq<char>) -> bool {
    &&& after.error_message matches Some(m) && m@ == message
    &&& after == TransferTask { state, error_message: after.error_message, ..before }
}

#[derive(Debug, Clone, PartialEq, Eq, Default)]
pub struct TransferQueue {
    pub tasks: Vec<TransferTask>,
}

impl TransferQueue {
    pub fn summary(&self, current_session_id: Option<&str>) -> (r: TransferQueueSummary)
        ensures
            r == summary_of(self.tasks@, opt_str_view(current_session_id)),
    {
        TransferQueueSummary::from_tasks(self.tasks.as_slice(), current_session_id)
    }

    fn position(&self, task_id: &str) -> (r: Option<usize>)
        ensures
            match r {
                Some(i) => i == first_where(self.tasks@, has_id(task_id@)) && i < self.tasks@.len(),
                None => first_where(self.tasks@, has_id(task_id@)) == -1,
            },
    {
        let mut i: usize = 0;
        while i < self.tasks.len()
            invariant
                i <= self.tasks.len(),
                forall|j: int| 0 <= j < i ==> !has_id(task_id@)(#[trigger] self.tasks@[j]),
            decreases self.tasks.len() - i,
        {
            if same_text(self.tasks[i].id.as_str(), task_id) {
                proof { lemma_first_where_is(self.tasks@, has_id(task_id@), i as int); }
                return Some(i);
            }
            i = i + 1;
        }
        proof { lemma_first_where_is(self.tasks@, has_id(task_id@), -1); }
        None
    }

    /// The first task with identifier `task_id`.
    pub fn task(&self, task_id: &str) -> (r: Option<&TransferTask>)
        ensures
            match r {
                Some(t) => {
                    let i = first_where(self.tasks@, has_id(task_id@));
                    i >= 0 && *t == self.tasks@[i]
                },
                None => first_where(self.tasks@, has_id(task_id@)) == -1,
            },
    {
        match self.position(task_id) {
            Some(i) => Some(&self.tasks[i]),
            None => None,
        }
    }

    pub fn mark_running(&mut self, task_id: &str) -> (r: bool)
        ensures
            ({
                let i = first_where(old(self).tasks@, has_id(task_id@));
                &&& r == (i >= 0)
                &&& i < 0 ==> final(self).tasks@ == old(self).tasks@
                &&& i >= 0 ==> final(self).tasks@ == old(self).tasks@.update(i, TransferTask {
                    state: TransferTaskState::Running,
                    error_message: None,
                    ..old(self).tasks@[i]
                })
            }),
    {
        match self.position(task_id) {
            Some(i) => {
                let t = &mut self.tasks[i];
                t.state = TransferTaskState::Running;
                t.error_message = None;
                true
            },
            None => false,
        }
    }

    /// Records how far a running task got: its size and the bytes moved so
    /// far, as it reports them chunk by chunk.
    pub fn note_progress(&mut self, task_id: &str, bytes_total: u64, bytes_transferred: u64) -> (r: bool)
        ensures
            ({
                let i = first_where(old(self).tasks@, has_id(task_id@));
                &&& r == (i >= 0)
                &&& i < 0 ==> final(self).tasks@ == old(self).tasks@
                &&& i >= 0 ==> final(self).tasks@ == old(self).tasks@.update(i, TransferTask {
                    bytes_total,
                    bytes_transferred,
                    ..old(self).tasks@[i]
                })
            }),
    {
        match self.position(task_id) {
            Some(i) => {
                let t = &mut self.tasks[i];
                t.bytes_total = bytes_total;
                t.bytes_transferred = bytes_transferred;
                true
            },
            None => false,
        }
    }

    /// Marks a task completed; a task whose size was unknown takes the
    /// transferred byte count as its size.
    pub fn mark_completed(&mut self, task_id: &str, bytes_transferred: u64) -> (r: bool)
        ensures
            ({
                let i = first_where(old(self).tasks@, has_id(task_id@));
                let t = old(self).tasks@[i];
                &&& r == (i >= 0)
                &&& i < 0 ==> final(self).tasks@ == old(self).tasks@
                &&& i >= 0 ==> final(self).tasks@ == old(self).tasks@.update(i, TransferTask {
                    state: TransferTaskState::Completed,
                    bytes_transferred,
                    bytes_total: if t.bytes_total == 0 { bytes_transferred } else { t.bytes_total },
                    error_message: None,
                    ..t
                })
            }),
    {
        match self.position(task_id) {
            Some(i) => {
                let t = &mut self.tasks[i];
                t.state = TransferTaskState::Completed;
                t.bytes_transferred = bytes_transferred;
                if t.bytes_total == 0 {
                    t.bytes_total = bytes_transferred;
                }
                t.error_message = None;
                true
            },
            None => false,
        }
    }

    fn flag(&mut self, task_id: &str, state: TransferTaskState, message: String) -> (r: bool)
        ensures
            ({
                let i = first_where(old(self).tasks@, has_id(task_id@));
                &&& r == (i >= 0)
                &&& i < 0 ==> final(self).tasks@ == old(self).tasks@
                &&& i >= 0 ==> final(self).tasks@ == old(self).tasks@.update(i, final(self).tasks@[i])
                    && flagged(old(self).tasks@[i], final(self).tasks@[i], state, message@)
            }),
    {
        match self.position(task_id) {
            Some(i) => {
                let t = &mut self.tasks[i];
                t.state = state;
                t.error_message = Some(message);
                true
            },
            None => false,
        }
    }

    pub fn mark_failed(&mut self, task_id: &str, message: String) -> (r: bool)
        ensures
            ({
                let i = first_where(old(self).tasks@, has_id(task_id@));
                &&& r == (i >= 0)
                &&& i < 0 ==> final(self).tasks@ == old(self).tasks@
                &&& i >= 0 ==> final(self).tasks@ == old(self).tasks@.update(i, final(self).tasks@[i])
                    && flagged(old(self).tasks@[i], final(self).tasks@[i], TransferTaskState::Failed, message@)
            }),
    {
        self.flag(task_id, TransferTaskState::Failed, message)
    }

    pub fn cancel_task(&mut self, task_id: &str, message: String) -> (r: bool)
        ensures
            ({
                let i = first_where(old(self).tasks@, has_id(task_id@));
                &&& r == (i >= 0)
                &&& i < 0 ==> final(self).tasks@ == old(self).tasks@
                &&& i >= 0 ==> final(self).tasks@ == old(self).tasks@.update(i, final(self).tasks@[i])
                    && flagged(old(self).tasks@[i], final(self).tasks@[i], TransferTaskState::Cancelled, message@)
            }),
    {
        self.flag(task_id, TransferTaskState::Cancelled, message)
    }

    pub fn mark_conflict(&mut self, task_id: &str, message: String) -> (r: bool)
        ensures
            ({
                let i = first_where(old(self).tasks@, has_id(task_id@));
                &&& r == (i >= 0)
                &&& i < 0 ==> final(self).tasks@ == old(self).tasks@
                &&& i >= 0 ==> final(self).tasks@ == old(self).tasks@.update(i, final(self).tasks@[i])
                    && flagged(old(self).tasks@[i], final(self).tasks@[i], TransferTaskState::Conflict, message@)
            }),
    {
        self.flag(task_id, TransferTaskState::Conflict, message)
    }

    /// Requeues a task in conflict with the chosen policy.
    pub fn resume_conflict(&mut self, task_id: &str, policy: TransferConflictPolicy) -> (r: bool)
        ensures
            ({
                let i = first_where(old(self).tasks@, has_id(task_id@));
                &&& r == (i >= 0 && old(self).tasks@[i].state == TransferTaskState::Conflict)
                &&& !r ==> final(self).tasks@ == old(self).tasks@
                &&& r ==> final(self).tasks@ == old(self).tasks@.update(i, TransferTask {
                    state: TransferTaskState::Queued,
                    conflict_policy: Some(policy),
                    error_message: None,
                    ..old(self).tasks@[i]
                })
            }),
    {
        match self.position(task_id) {
            Some(i) => {
                if self.tasks[i].state != TransferTaskState::Conflict {
                    return false;
                }
                let t = &mut self.tasks[i];
                t.state = TransferTaskState::Queued;
                t.conflict_policy = Some(policy);
                t.error_message = None;
                true
            },
            None => false,
        }
    }

    /// Identifiers of the queued tasks, in queue order.
    pub fn queued_task_ids(&self) -> (r: Vec<String>)
        ensures
            r@.map_values(|x: String| x@) == self.tasks@.filter(has_state(TransferTaskState::Queued)).map_values(
                |t: TransferTask| t.id@,
            ),
    {
        let ghost s = self.tasks@;
        let mut out: Vec<String> = Vec::new();
        let mut i: usize = 0;
        while i < self.tasks.len()
            invariant
                i <= self.tasks.len(),
                s == self.tasks@,
                out@.map_values(|x: String| x@) == s.take(i as int).filter(has_state(TransferTaskState::Queued)).map_values(
                    |t: TransferTask| t.id@,
                ),
            decreases self.tasks.len() - i,
        {
            proof { lemma_filter_take_step(s, i as int, has_state(TransferTaskState::Queued)); }
            if self.tasks[i].state == TransferTaskState::Queued {
                let ghost before = out@;
                let id = self.tasks[i].id.clone();
                assert(id == s[i as int].id);
                out.push(id);
                assert(out@ =~= before.push(id));
                assert(out@.map_values(|x: String| x@) =~= before.map_values(|x: String| x@).push(id@));
                assert(out@.map_values(|x: String| x@) =~= s.take(i + 1).filter(has_state(TransferTaskState::Queued)).map_values(
                    |t: TransferTask| t.id@,
                ));
            }
            i = i + 1;
        }
        assert(s.take(i as int) =~= s);
        out
    }

    /// A task of the session whose source or target is one of the paths being deleted.
    pub open spec fn conflicts_with(session_id: Seq<char>, remote_paths: Seq<String>) -> spec_fn(TransferTask) -> bool {
        |t: TransferTask| t.session_id@ == session_id && state_is_active(t.state)
            && exists|j: int| 0 <= j < remote_paths.len()
                && (remote_paths[j]@ == t.source_path@ || remote_paths[j]@ == t.target_path@)
    }

    /// Cancels the active tasks of `session_id` that read or write one of
    /// `remote_paths`, and says how many there were.
    pub fn cancel_conflicting_paths(&mut self, session_id: &str, remote_paths: &[String]) -> (r: usize)
        ensures
            final(self).tasks@.len() == old(self).tasks@.len(),
            r == old(self).tasks@.filter(Self::conflicts_with(session_id@, remote_paths@)).len(),
            forall|i: int| 0 <= i < old(self).tasks@.len() ==> {
                if Self::conflicts_with(session_id@, remote_paths@)(#[trigger] old(self).tasks@[i]) {
                    flagged(old(self).tasks@[i], final(self).tasks@[i], TransferTaskState::Cancelled,
                        "Cancelled because the remote path is being deleted"@)
                } else {
                    final(self).tasks@[i] == old(self).tasks@[i]
                }
            },
    {
        let ghost s = self.tasks@;
        let ghost p = Self::conflicts_with(session_id@, remote_paths@);
        let mut cancelled: usize = 0;
        let mut i: usize = 0;
        while i < self.tasks.len()
            invariant
                i <= self.tasks.len(),
                self.tasks@.len() == s.len(),
                p == Self::conflicts_with(session_id@, remote_paths@),
                cancelled == s.take(i as int).filter(p).len(),
                cancelled <= i,
                forall|k: int| i <= k < s.len() ==> self.tasks@[k] == s[k],
                forall|k: int| 0 <= k < i ==> {
                    if p(#[trigger] s[k]) {
                        flagged(s[k], self.tasks@[k], TransferTaskState::Cancelled,
                            "Cancelled because the remote path is being deleted"@)
                    } else {
                        self.tasks@[k] == s[k]
                    }
                },
            decreases self.tasks.len() - i,
        {
            proof { lemma_filter_take_step(s, i as int, p); }
            let hit = if same_text(self.tasks[i].session_id.as_str(), session_id) && self.tasks[i].state.is_active() {
                let mut found = false;
                let mut j: usize = 0;
                while j < remote_paths.len()
                    invariant
                        j <= remote_paths.len(),
                        i < self.tasks@.len(),
                        self.tasks@.len() == s.len(),
                        self.tasks@[i as int] == s[i as int],
                        found == exists|m: int| 0 <= m < j
                            && (remote_paths@[m]@ == s[i as int].source_path@ || remote_paths@[m]@ == s[i as int].target_path@),
                    decreases remote_paths.len() - j,
                {
                    if same_text(remote_paths[j].as_str(), self.tasks[i].source_path.as_str())
                        || same_text(remote_paths[j].as_str(), self.tasks[i].target_path.as_str()) {
                        found = true;
                    }
                    j = j + 1;
                }
                found
            } else {
                false
            };
            assert(hit == p(s[i as int]));
            if hit {
                let t = &mut self.tasks[i];
                t.state = TransferTaskState::Cancelled;
                t.error_message = Some(String::from_str("Cancelled because the remote path is being deleted"));
                cancelled = cancelled + 1;
            }
            i = i + 1;
        }
        assert(s.take(i as int) =~= s);
        cancelled
    }
}

/// `t` is the queued download of `e` for `session_id`.
pub open spec fn download_task_of(e: DownloadTransferEntry, session_id: Seq<char>, t: TransferTask) -> bool {
    &&& t.session_id@ == session_id
    &&& t.source_path@ == e.remote_path@
    &&& t.target_path@ == e.local_path@
    &&& t.direction == TransferDirection::Download
    &&& (if e.entry_kind == SftpDirectoryEntryKind::Directory {
        t.action matches TransferTaskAction::DownloadDirectory { local_path } && local_path@ == e.local_path@
    } else {
        t.action matches TransferTaskAction::Download { local_path } && local_path@ == e.local_path@
    })
    &&& t.state == TransferTaskState::Queued
    &&& t.bytes_total == e.bytes_total
    &&& t.bytes_transferred == 0
    &&& t.conflict_policy.is_none()
    &&& t.error_message.is_none()
}

/// `t` is the queued upload of `e` into `target_dir` for `session_id`.
pub open spec fn upload_task_of(e: LocalTransferEntry, target_dir: Seq<char>, session_id: Seq<char>, t: TransferTask) -> bool {
    &&& t.session_id@ == session_id
    &&& t.source_path@ == e.local_path@
    &&& t.target_path@ == remote_upload_path_spec(target_dir, e.relative_path@)
    &&& t.direction == TransferDirection::Upload
    &&& t.action matches TransferTaskAction::Upload { local_path } && local_path@ == e.local_path@
    &&& t.state == TransferTaskState::Queued
    &&& t.bytes_total == e.bytes_total
    &&& t.bytes_transferred == 0
    &&& t.conflict_policy.is_none()
    &&& t.error_message.is_none()
}

/// `t` is the queued deletion of `e` for `session_id`.
pub open spec fn delete_task_of(e: SftpDirectoryEntry, session_id: Seq<char>, t: TransferTask) -> bool {
    &&& t.session_id@ == session_id
    &&& t.source_path@ == e.path@
    &&& t.target_path@ == Seq::<char>::empty()
    &&& t.direction == TransferDirection::Delete
    &&& t.action == TransferTaskAction::Delete { entry_kind: e.kind }
    &&& t.state == TransferTaskState::Queued
    &&& t.bytes_total == 0
    &&& t.bytes_transferred == 0
    &&& t.conflict_policy.is_none()
    &&& t.error_message.is_none()
}

/// The download target of a listed entry under `local_root`.
pub open spec fn download_entry_of(local_root: Seq<char>, e: SftpDirectoryEntry, d: DownloadTransferEntry) -> bool {
    &&& d.remote_path@ == e.path@
    &&& d.local_path@ == local_download_path_spec(local_root, e.path@)
    &&& d.entry_kind == e.kind
    &&& d.bytes_total == match e.size_bytes {
        Some(n) => n,
        None => 0,
    }
}

/// `t` is the queued download of the listed entry `e` into `local_root`.
pub open spec fn listed_download_task_of(local_root: Seq<char>, e: SftpDirectoryEntry, session_id: Seq<char>, t: TransferTask) -> bool {
    let local = local_download_path_spec(local_root, e.path@);
    &&& t.session_id@ == session_id
    &&& t.source_path@ == e.path@
    &&& t.target_path@ == local
    &&& t.direction == TransferDirection::Download
    &&& (if e.kind == SftpDirectoryEntryKind::Directory {
        t.action matches TransferTaskAction::DownloadDirectory { local_path } && local_path@ == local
    } else {
        t.action matches TransferTaskAction::Download { local_path } && local_path@ == local
    })
    &&& t.state == TransferTaskState::Queued
    &&& t.bytes_total == match e.size_bytes {
        Some(n) => n,
        None => 0,
    }
    &&& t.bytes_transferred == 0
    &&& t.conflict_policy.is_none()
    &&& t.error_message.is_none()
}

/// The tasks after the first `n0` are new, one per input, each related to its
/// input by `rel`, and their identifiers are the returned ones.
pub open spec fn appended<E>(
    before: Seq<TransferTask>,
    after: Seq<TransferTask>,
    inputs: Seq<E>,
    ids: Seq<String>,
    rel: spec_fn(E, TransferTask) -> bool,
) -> bool {
    &&& after.len() == before.len() + inputs.len()
    &&& after.take(before.len() as int) == before
    &&& ids.len() == inputs.len()
    &&& forall|k: int| 0 <= k < inputs.len() ==> {
        &&& rel(inputs[k], #[trigger] after[before.len() + k])
        &&& after[before.len() + k].id == ids[k]
        &&& exists|x: u128| ids[k]@ == uuid_text(x)
    }
}

fn new_task_id() -> (r: String)
    ensures
        exists|x: u128| r@ == uuid_text(x),
{
    uuid_string(uuid_new_v4())
}

impl TransferQueue {
    fn push_task(&mut self, task: TransferTask) -> (id: String)
        ensures
            final(self).tasks@ == old(self).tasks@.push(task),
            id == task.id,
    {
        let id = task.id.clone();
        self.tasks.push(task);
        id
    }

    pub fn enqueue_download_targets(&mut self, session_id: &str, entries: &[DownloadTransferEntry]) -> (r: Vec<String>)
        ensures
            appended(old(self).tasks@, final(self).tasks@, entries@, r@,
                |e: DownloadTransferEntry, t: TransferTask| download_task_of(e, session_id@, t)),
    {
        let ghost before = self.tasks@;
        let mut ids: Vec<String> = Vec::new();
        assert(before.take(before.len() as int) =~= before);
        let mut i: usize = 0;
        while i < entries.len()
            invariant
                i <= entries.len(),
                appended(before, self.tasks@, entries@.take(i as int), ids@,
                    |e: DownloadTransferEntry, t: TransferTask| download_task_of(e, session_id@, t)),
            decreases entries.len() - i,
        {
            let e = &entries[i];
            let action = if e.entry_kind == SftpDirectoryEntryKind::Directory {
                TransferTaskAction::DownloadDirectory { local_path: e.local_path.clone() }
            } else {
                TransferTaskAction::Download { local_path: e.local_path.clone() }
            };
            let task = TransferTask {
                id: new_task_id(),
                session_id: String::from_str(session_id),
                source_path: e.remote_path.clone(),
                target_path: e.local_path.clone(),
                direction: TransferDirection::Download,
                action,
                state: TransferTaskState::Queued,
                bytes_total: e.bytes_total,
                bytes_transferred: 0,
                conflict_policy: None,
                error_message: None,
            };
            let ghost t = task;
            let id = self.push_task(task);
            ids.push(id);
            proof {
                assert(entries@.take(i + 1) =~= entries@.take(i as int).push(entries@[i as int]));
                assert(self.tasks@.take(before.len() as int) =~= before);
                assert(self.tasks@[before.len() + i] == t);
            }
            i = i + 1;
        }
        assert(entries@.take(i as int) =~= entries@);
        ids
    }

    pub fn enqueue_download(&mut self, session_id: &str, local_root: &str, entries: &[SftpDirectoryEntry]) -> (r: Vec<String>)
        ensures
            appended(old(self).tasks@, final(self).tasks@, entries@, r@,
                |e: SftpDirectoryEntry, t: TransferTask| listed_download_task_of(local_root@, e, session_id@, t)),
    {
        let mut targets: Vec<DownloadTransferEntry> = Vec::new();
        let mut i: usize = 0;
        while i < entries.len()
            invariant
                i <= entries.len(),
                targets@.len() == i,
                forall|k: int| 0 <= k < i ==> download_entry_of(local_root@, entries@[k], #[trigger] targets@[k]),
            decreases entries.len() - i,
        {
            let e = &entries[i];
            let bytes_total = match e.size_bytes {
                Some(n) => n,
                None => 0,
            };
            targets.push(DownloadTransferEntry {
                remote_path: e.path.clone(),
                local_path: build_local_download_path(local_root, e.path.as_str()),
                entry_kind: e.kind,
                bytes_total,
            });
            i = i + 1;
        }
        let ghost before = self.tasks@;
        let ids = self.enqueue_download_targets(session_id, targets.as_slice());
        proof {
            assert forall|k: int| 0 <= k < entries@.len() implies {
                &&& listed_download_task_of(local_root@, entries@[k], session_id@, #[trigger] self.tasks@[before.len() + k])
                &&& self.tasks@[before.len() + k].id == ids@[k]
                &&& exists|x: u128| ids@[k]@ == uuid_text(x)
            } by {
                assert(download_entry_of(local_root@, entries@[k], targets@[k]));
                assert(download_task_of(targets@[k], session_id@, self.tasks@[before.len() + k]));
            }
        }
        ids
    }

    pub fn enqueue_upload(&mut self, session_id: &str, target_dir: &str, sources: &[LocalTransferEntry]) -> (r: Vec<String>)
        ensures
            appended(old(self).tasks@, final(self).tasks@, sources@, r@,
                |e: LocalTransferEntry, t: TransferTask| upload_task_of(e, target_dir@, session_id@, t)),
    {
        let ghost before = self.tasks@;
        let mut ids: Vec<String> = Vec::new();
        assert(before.take(before.len() as int) =~= before);
        let mut i: usize = 0;
        while i < sources.len()
            invariant
                i <= sources.len(),
                appended(before, self.tasks@, sources@.take(i as int), ids@,
                    |e: LocalTransferEntry, t: TransferTask| upload_task_of(e, target_dir@, session_id@, t)),
            decreases sources.len() - i,
        {
            let e = &sources[i];
            let task = TransferTask {
                id: new_task_id(),
                session_id: String::from_str(session_id),
                source_path: e.local_path.clone(),
                target_path: build_remote_upload_path(target_dir, e.relative_path.as_str()),
                direction: TransferDirection::Upload,
                action: TransferTaskAction::Upload { local_path: e.local_path.clone() },
                state: TransferTaskState::Queued,
                bytes_total: e.bytes_total,
                bytes_transferred: 0,
                conflict_policy: None,
                error_message: None,
            };
            let ghost t = task;
            let id = self.push_task(task);
            ids.push(id);
            proof {
                assert(sources@.take(i + 1) =~= sources@.take(i as int).push(sources@[i as int]));
                assert(self.tasks@.take(before.len() as int) =~= before);
                assert(self.tasks@[before.len() + i] == t);
            }
            i = i + 1;
        }
        assert(sources@.take(i as int) =~= sources@);
        ids
    }

    pub fn enqueue_delete(&mut self, session_id: &str, entries: &[SftpDirectoryEntry]) -> (r: Vec<String>)
        ensures
            appended(old(self).tasks@, final(self).tasks@, entries@, r@,
                |e: SftpDirectoryEntry, t: TransferTask| delete_task_of(e, session_id@, t)),
    {
        let ghost before = self.tasks@;
        let mut ids: Vec<String> = Vec::new();
        assert(before.take(before.len() as int) =~= before);
        let mut i: usize = 0;
        while i < entries.len()
            invariant
                i <= entries.len(),
                appended(before, self.tasks@, entries@.take(i as int), ids@,
                    |e: SftpDirectoryEntry, t: TransferTask| delete_task_of(e, session_id@, t)),
            decreases entries.len() - i,
        {
            let e = &entries[i];
            let task = TransferTask {
                id: new_task_id(),
                session_id: String::from_str(session_id),
                source_path: e.path.clone(),
                target_path: String::new(),
                direction: TransferDirection::Delete,
                action: TransferTaskAction::Delete { entry_kind: e.kind },
                state: TransferTaskState::Queued,
                bytes_total: 0,
                bytes_transferred: 0,
                conflict_policy: None,
                error_message: None,
            };
            let ghost t = task;
            let id = self.push_task(task);
            ids.push(id);
            proof {
                assert(entries@.take(i + 1) =~= entries@.take(i as int).push(entries@[i as int]));
                assert(self.tasks@.take(before.len() as int) =~= before);
                assert(self.tasks@[before.len() + i] == t);
            }
            i = i + 1;
        }
        assert(entries@.take(i as int) =~= entries@);
        ids
    }

    /// Queues moving `entry` into `target_dir`, keeping its name.
    pub fn enqueue_move(&mut self, session_id: &str, entry: &SftpDirectoryEntry, target_dir: &str) -> (r: String)
        ensures
            final(self).tasks@.len() == old(self).tasks@.len() + 1,
            final(self).tasks@.drop_last() == old(self).tasks@,
            ({
                let t = final(self).tasks@.last();
                &&& t.id == r
                &&& exists|x: u128| r@ == uuid_text(x)
                &&& t.session_id@ == session_id@
                &&& t.source_path@ == entry.path@
                &&& t.target_path@ == remote_upload_path_spec(target_dir@, entry.name@)
                &&& t.direction == TransferDirection::Move
                &&& t.action == TransferTaskAction::Move
                &&& t.state == TransferTaskState::Queued
                &&& t.bytes_total == 0
                &&& t.bytes_transferred == 0
                &&& t.conflict_policy.is_none()
                &&& t.error_message.is_none()
            }),
    {
        let task = TransferTask {
            id: new_task_id(),
            session_id: String::from_str(session_id),
            source_path: entry.path.clone(),
            target_path: build_remote_upload_path(target_dir, entry.name.as_str()),
            direction: TransferDirection::Move,
            action: TransferTaskAction::Move,
            state: TransferTaskState::Queued,
            bytes_total: 0,
            bytes_transferred: 0,
            conflict_policy: None,
            error_message: None,
        };
        let id = self.push_task(task);
        assert(self.tasks@.drop_last() =~= old(self).tasks@);
        id
    }
}

} // verus!
