//! The decisions taken while queued SFTP transfers run: whether a transfer
//! may start when its target already exists, whether an earlier folder
//! download in conflict holds it back, whether a partial transfer can be
//! resumed, and which remote folders must exist before a file is written.
//! Probing and writing files, local or remote, stays with the caller.

use vstd::prelude::*;
use crate::remote_paths::{
    last_segment, last_segment_of, normalize_remote_dir_spec, remote_child_path, remote_child_spec, remote_parent_path,
    remote_parent_spec, same_remote_dir, slash,
};
use crate::remote_paths::{local_join, local_join_spec};
use crate::sftp_model::{SftpDirectoryEntry, SftpDirectoryEntryKind, SftpSessionBindingState};
use crate::seqs::first_where;
use crate::sftp_clipboard::SftpRemoteMetadata;
use crate::sftp_queue::{has_id, DownloadTransferEntry, TransferConflictPolicy, TransferQueue, TransferTask, TransferTaskAction, TransferTaskState};
use crate::text::same_text;

verus! {

// ---------------------------------------------------------------------------
// Resuming a partial transfer
// ---------------------------------------------------------------------------

#[derive(Debug, Clone, PartialEq, Eq)]
pub enum TransferResumeError {
    /// The local file to upload is not the size it was when the transfer was queued.
    SourceChanged { source_path: String },
    /// More of the upload is on the server than the local file holds.
    CheckpointBeyondSource { remote_offset: u64, source_path: String },
    /// The remote file to download is smaller than what was already downloaded.
    RemoteSmaller { source_path: String },
}

impl TransferResumeError {
    pub open spec fn message_spec(&self) -> Seq<char> {
        match self {
            TransferResumeError::SourceChanged { source_path } =>
                "local upload source `"@ + source_path@ + "` changed since the checkpoint was recorded; restart required"@,
            TransferResumeError::CheckpointBeyondSource { remote_offset, source_path } =>
                "remote upload checkpoint `"@ + crate::format::dec_digits(*remote_offset as nat) + "` exceeds local source `"@
                    + source_path@ + "`; restart required"@,
            TransferResumeError::RemoteSmaller { source_path } =>
                "remote source `"@ + source_path@ + "` is smaller than the local resume checkpoint; restart required"@,
        }
    }

    pub fn message(&self) -> (r: String)
        ensures
            r@ == self.message_spec(),
    {
        match self {
            TransferResumeError::SourceChanged { source_path } => crate::text::cat3(
                "local upload source `",
                source_path.as_str(),
                "` changed since the checkpoint was recorded; restart required",
            ),
            TransferResumeError::CheckpointBeyondSource { remote_offset, source_path } => {
                let digits = crate::format::dec_string(*remote_offset);
                let head = crate::text::cat3("remote upload checkpoint `", digits.as_str(), "` exceeds local source `");
                crate::text::cat3(head.as_str(), source_path.as_str(), "`; restart required")
            },
            TransferResumeError::RemoteSmaller { source_path } => crate::text::cat3(
                "remote source `",
                source_path.as_str(),
                "` is smaller than the local resume checkpoint; restart required",
            ),
        }
    }
}

/// An upload may go on from `remote_offset` bytes when the local file is
/// still the size recorded for the task (an unknown size, zero, accepts any)
/// and holds at least what is already on the server.
pub fn validate_upload_resume(task: &TransferTask, local_size: u64, remote_offset: u64) -> (r: Result<(), TransferResumeError>)
    ensures
        if task.bytes_total != 0 && task.bytes_total != local_size {
            r matches Err(TransferResumeError::SourceChanged { source_path: p }) && p@ == task.source_path@
        } else if remote_offset > local_size {
            r matches Err(TransferResumeError::CheckpointBeyondSource { remote_offset: o, source_path: p })
                && o == remote_offset && p@ == task.source_path@
        } else {
            r is Ok
        },
{
    if task.bytes_total != 0 && task.bytes_total != local_size {
        return Err(TransferResumeError::SourceChanged { source_path: task.source_path.clone() });
    }
    if remote_offset > local_size {
        return Err(TransferResumeError::CheckpointBeyondSource { remote_offset, source_path: task.source_path.clone() });
    }
    Ok(())
}

/// A download may go on from `resume_offset` bytes unless the remote file
/// (of the recorded size when the server does not say) is smaller than that.
pub fn validate_download_resume(task: &TransferTask, resume_offset: u64, remote_meta: &SftpRemoteMetadata)
    -> (r: Result<(), TransferResumeError>)
    ensures
        ({
            let remote_size = match remote_meta.size_bytes {
                Some(s) => s,
                None => task.bytes_total,
            };
            if remote_size < resume_offset {
                r matches Err(TransferResumeError::RemoteSmaller { source_path: p }) && p@ == task.source_path@
            } else {
                r is Ok
            }
        }),
{
    let remote_size = match remote_meta.size_bytes {
        Some(s) => s,
        None => task.bytes_total,
    };
    if remote_size < resume_offset {
        return Err(TransferResumeError::RemoteSmaller { source_path: task.source_path.clone() });
    }
    Ok(())
}

// ---------------------------------------------------------------------------
// Starting a transfer whose target exists
// ---------------------------------------------------------------------------

/// Where a transfer writes, which the caller probes before it starts.
#[derive(Debug, Clone, PartialEq, Eq)]
pub enum TransferTarget {
    Remote { path: String },
    Local { path: String },
}

/// What becomes of a transfer about to start.
#[derive(Debug, Clone, PartialEq, Eq)]
pub enum TransferStartDecision {
    /// It runs.
    Proceed,
    /// It waits for the user to choose what to do with the existing target.
    Conflict { message: String },
    /// It is dropped, leaving the existing target alone.
    Skip { message: String },
}

/// The target a task's conflict check looks at: the remote target of an
/// upload or a move, the local path of a download; a deletion has none.
pub open spec fn conflict_target_spec(task: TransferTask) -> Option<(bool, Seq<char>)> {
    match task.action {
        TransferTaskAction::Upload { .. } => Some((true, task.target_path@)),
        TransferTaskAction::Move => Some((true, task.target_path@)),
        TransferTaskAction::Download { local_path } => Some((false, local_path@)),
        TransferTaskAction::DownloadDirectory { local_path } => Some((false, local_path@)),
        TransferTaskAction::Delete { .. } => None,
    }
}

pub open spec fn target_view(t: TransferTarget) -> (bool, Seq<char>) {
    match t {
        TransferTarget::Remote { path } => (true, path@),
        TransferTarget::Local { path } => (false, path@),
    }
}

/// The path whose existence decides how `task` starts, if any.
pub fn conflict_target(task: &TransferTask) -> (r: Option<TransferTarget>)
    ensures
        match conflict_target_spec(*task) {
            Some(t) => r matches Some(x) && target_view(x) == t,
            None => r is None,
        },
{
    match &task.action {
        TransferTaskAction::Upload { .. } => Some(TransferTarget::Remote { path: task.target_path.clone() }),
        TransferTaskAction::Move => Some(TransferTarget::Remote { path: task.target_path.clone() }),
        TransferTaskAction::Download { local_path } => Some(TransferTarget::Local { path: local_path.clone() }),
        TransferTaskAction::DownloadDirectory { local_path } => Some(TransferTarget::Local { path: local_path.clone() }),
        TransferTaskAction::Delete { .. } => None,
    }
}

/// What the user is told about an existing target, by kind of transfer.
pub open spec fn conflict_messages(action: TransferTaskAction) -> (Seq<char>, Seq<char>) {
    match action {
        TransferTaskAction::Upload { .. } => ("Remote path already exists"@, "Skipped existing remote path"@),
        TransferTaskAction::Move => ("Remote target already exists"@, "Skipped existing remote target"@),
        _ => ("Local path already exists"@, "Skipped existing local path"@),
    }
}

/// A transfer runs when its target is free, when it has none, or when the
/// user chose to overwrite; it waits in conflict when no choice was made yet,
/// and is dropped when the user chose to skip.
pub open spec fn start_decision_spec(task: TransferTask, target_exists: bool) -> (int, Seq<char>) {
    if conflict_target_spec(task) is None || !target_exists {
        (0, Seq::empty())
    } else {
        match task.conflict_policy {
            None => (1, conflict_messages(task.action).0),
            Some(TransferConflictPolicy::Skip) => (2, conflict_messages(task.action).1),
            Some(TransferConflictPolicy::Overwrite) => (0, Seq::empty()),
        }
    }
}

pub open spec fn decision_view(d: TransferStartDecision) -> (int, Seq<char>) {
    match d {
        TransferStartDecision::Proceed => (0, Seq::empty()),
        TransferStartDecision::Conflict { message } => (1, message@),
        TransferStartDecision::Skip { message } => (2, message@),
    }
}

/// How `task` starts, given whether its target (see `conflict_target`) exists.
pub fn start_decision(task: &TransferTask, target_exists: bool) -> (r: TransferStartDecision)
    ensures
        decision_view(r) == start_decision_spec(*task, target_exists),
{
    let remote = match &task.action {
        TransferTaskAction::Delete { .. } => return TransferStartDecision::Proceed,
        TransferTaskAction::Upload { .. } => 0u8,
        TransferTaskAction::Move => 1u8,
        _ => 2u8,
    };
    if !target_exists {
        return TransferStartDecision::Proceed;
    }
    match task.conflict_policy {
        None => TransferStartDecision::Conflict {
            message: String::from_str(if remote == 0 {
                "Remote path already exists"
            } else if remote == 1 {
                "Remote target already exists"
            } else {
                "Local path already exists"
            }),
        },
        Some(TransferConflictPolicy::Skip) => TransferStartDecision::Skip {
            message: String::from_str(if remote == 0 {
                "Skipped existing remote path"
            } else if remote == 1 {
                "Skipped existing remote target"
            } else {
                "Skipped existing local path"
            }),
        },
        Some(TransferConflictPolicy::Overwrite) => TransferStartDecision::Proceed,
    }
}

// ---------------------------------------------------------------------------
// Downloads held back by a folder download in conflict
// ---------------------------------------------------------------------------

/// What `Path::starts_with` says of two local paths: whether the whole
/// components of `base` begin `path`.
pub uninterp spec fn path_starts_with(path: Seq<char>, base: Seq<char>) -> bool;

/// `std::path::Path::starts_with` on two local paths. Its result is named by
/// `path_starts_with`; of it the contract states only what the
/// documentation makes plain: a path begins with itself.
#[verifier::external_body]
fn local_path_starts_with(path: &str, base: &str) -> (r: bool)
    ensures
        r == path_starts_with(path@, base@),
        path@ == base@ ==> r,
{
    std::path::Path::new(path).starts_with(base)
}

/// `candidate` is a folder download of the same session, in conflict, into
/// which the download `task` would write.
pub open spec fn blocks_download(task: TransferTask, candidate: TransferTask) -> bool {
    match task.action {
        TransferTaskAction::Download { local_path } => download_dir_blocks(task, local_path@, candidate),
        TransferTaskAction::DownloadDirectory { local_path } => download_dir_blocks(task, local_path@, candidate),
        _ => false,
    }
}

pub open spec fn download_dir_blocks(task: TransferTask, task_path: Seq<char>, candidate: TransferTask) -> bool {
    &&& candidate.id@ != task.id@
    &&& candidate.session_id@ == task.session_id@
    &&& candidate.state == TransferTaskState::Conflict
    &&& candidate.action matches TransferTaskAction::DownloadDirectory { local_path } && path_starts_with(task_path, local_path@)
}

/// A download waits while a folder download it would write into is in conflict.
pub fn has_blocking_download_directory_conflict(queue: &TransferQueue, task: &TransferTask) -> (r: bool)
    ensures
        r == exists|j: int| 0 <= j < queue.tasks@.len() && blocks_download(*task, #[trigger] queue.tasks@[j]),
{
    let task_path = match &task.action {
        TransferTaskAction::Download { local_path } => local_path,
        TransferTaskAction::DownloadDirectory { local_path } => local_path,
        _ => return false,
    };
    assert(forall|c: TransferTask| #[trigger] blocks_download(*task, c) == download_dir_blocks(*task, task_path@, c));
    let mut i: usize = 0;
    while i < queue.tasks.len()
        invariant
            i <= queue.tasks@.len(),
            forall|c: TransferTask| #[trigger] blocks_download(*task, c) == download_dir_blocks(*task, task_path@, c),
            forall|j: int| 0 <= j < i ==> !blocks_download(*task, #[trigger] queue.tasks@[j]),
        decreases queue.tasks.len() - i,
    {
        let candidate = &queue.tasks[i];
        let blocking = if !same_text(candidate.id.as_str(), task.id.as_str())
            && same_text(candidate.session_id.as_str(), task.session_id.as_str())
            && candidate.state == TransferTaskState::Conflict {
            match &candidate.action {
                TransferTaskAction::DownloadDirectory { local_path } =>
                    local_path_starts_with(task_path.as_str(), local_path.as_str()),
                _ => false,
            }
        } else {
            false
        };
        assert(blocking == blocks_download(*task, queue.tasks@[i as int]));
        if blocking {
            return true;
        }
        i = i + 1;
    }
    false
}

// ---------------------------------------------------------------------------
// Starting a queued transfer
// ---------------------------------------------------------------------------

/// Takes the decision on starting the task `task_id`, whose target exists
/// when `target_exists` says so, and records it in the queue: the task runs,
/// waits in conflict or is skipped. Says whether it is to run. A missing
/// task, or one held back by a folder download in conflict, is left as it is.
pub fn begin_transfer(queue: &mut TransferQueue, task_id: &str, target_exists: bool) -> (r: bool)
    ensures
        ({
            let i = first_where(old(queue).tasks@, has_id(task_id@));
            let t = old(queue).tasks@[i];
            let blocked = exists|j: int| 0 <= j < old(queue).tasks@.len() && blocks_download(t, #[trigger] old(queue).tasks@[j]);
            let (kind, message) = start_decision_spec(t, target_exists);
            if i < 0 || blocked {
                !r && final(queue).tasks@ == old(queue).tasks@
            } else if kind == 0 {
                r && final(queue).tasks@ == old(queue).tasks@.update(i, TransferTask {
                    state: TransferTaskState::Running,
                    error_message: None,
                    ..t
                })
            } else {
                &&& !r
                &&& final(queue).tasks@ == old(queue).tasks@.update(i, final(queue).tasks@[i])
                &&& crate::sftp_queue::flagged(t, final(queue).tasks@[i],
                    if kind == 1 { TransferTaskState::Conflict } else { TransferTaskState::Cancelled }, message)
            }
        }),
{
    let decision = match queue.task(task_id) {
        None => return false,
        Some(t) => {
            if has_blocking_download_directory_conflict(queue, t) {
                return false;
            }
            start_decision(t, target_exists)
        },
    };
    match decision {
        TransferStartDecision::Proceed => queue.mark_running(task_id),
        TransferStartDecision::Conflict { message } => {
            queue.mark_conflict(task_id, message);
            false
        },
        TransferStartDecision::Skip { message } => {
            queue.cancel_task(task_id, message);
            false
        },
    }
}

// ---------------------------------------------------------------------------
// Remote folders to create before writing
// ---------------------------------------------------------------------------

/// The folders above `path` up to (not including) the root, outermost first.
pub open spec fn remote_ancestors(path: Seq<char>) -> Seq<Seq<char>>
    decreases path.len(),
{
    match remote_parent_spec(path) {
        Some(p) => if p == slash() {
            Seq::empty()
        } else {
            proof {
                crate::remote_paths::lemma_parent_is_shorter(path);
            }
            remote_ancestors(p).push(p)
        },
        None => Seq::empty(),
    }
}

pub open spec fn texts_view(v: Seq<String>) -> Seq<Seq<char>> {
    v.map_values(|s: String| s@)
}

/// The folders that must exist before `remote_path` is written, outermost
/// first; the caller creates each one that is missing.
pub fn remote_ancestor_dirs(remote_path: &str) -> (r: Vec<String>)
    ensures
        texts_view(r@) == remote_ancestors(remote_path@),
{
    let mut out: Vec<String> = Vec::new();
    let mut cursor = remote_parent_path(remote_path);
    let ghost mut below: Seq<char> = remote_path@;
    assert(texts_view(out@) =~= Seq::<Seq<char>>::empty());
    loop
        invariant
            remote_ancestors(remote_path@) == remote_ancestors(below) + texts_view(out@),
            match cursor {
                Some(c) => remote_parent_spec(below) == Some(c@),
                None => remote_parent_spec(below).is_none(),
            },
        ensures
            remote_ancestors(remote_path@) == texts_view(out@),
        decreases below.len(),
    {
        let p = match cursor {
            None => {
                assert(remote_ancestors(below) =~= Seq::<Seq<char>>::empty());
                assert(remote_ancestors(remote_path@) =~= texts_view(out@));
                break;
            },
            Some(p) => p,
        };
        proof {
            reveal_strlit("/");
            assert("/"@ =~= slash());
        }
        if same_text(p.as_str(), "/") {
            assert(remote_ancestors(below) =~= Seq::<Seq<char>>::empty());
            assert(remote_ancestors(remote_path@) =~= texts_view(out@));
            break;
        }
        proof { crate::remote_paths::lemma_parent_is_shorter(below); }
        let next = remote_parent_path(p.as_str());
        let ghost before = out@;
        out.insert(0, p);
        proof {
            let pv = out@[0]@;
            assert(texts_view(out@) =~= seq![pv] + texts_view(before));
            assert(remote_ancestors(below) == remote_ancestors(pv).push(pv));
            assert(remote_ancestors(pv) + (seq![pv] + texts_view(before)) =~= remote_ancestors(pv).push(pv) + texts_view(before));
            below = pv;
        }
        cursor = next;
    }
    out
}

// ---------------------------------------------------------------------------
// Moving and deleting entries of the listing
// ---------------------------------------------------------------------------

pub open spec fn entry_has_id(id: Seq<char>) -> spec_fn(SftpDirectoryEntry) -> bool {
    |e: SftpDirectoryEntry| e.id@ == id
}

fn find_entry(entries: &Vec<SftpDirectoryEntry>, entry_id: &str) -> (r: Option<usize>)
    ensures
        match r {
            Some(i) => i == first_where(entries@, entry_has_id(entry_id@)) && i < entries@.len(),
            None => first_where(entries@, entry_has_id(entry_id@)) == -1,
        },
{
    let mut i: usize = 0;
    while i < entries.len()
        invariant
            i <= entries@.len(),
            forall|j: int| 0 <= j < i ==> !entry_has_id(entry_id@)(#[trigger] entries@[j]),
        decreases entries.len() - i,
    {
        if same_text(entries[i].id.as_str(), entry_id) {
            proof { crate::seqs::lemma_first_where_is(entries@, entry_has_id(entry_id@), i as int); }
            return Some(i);
        }
        i = i + 1;
    }
    proof { crate::seqs::lemma_first_where_is(entries@, entry_has_id(entry_id@), -1); }
    None
}

/// Moving the listed entry `entry_id` into `destination_dir`: its current
/// path and the path it moves to, or nothing to do when the entry is not
/// listed or already there.
pub fn planned_move(state: &SftpSessionBindingState, entry_id: &str, destination_dir: &str) -> (r: Option<(String, String)>)
    ensures
        ({
            let i = first_where(state.entries@, entry_has_id(entry_id@));
            let e = state.entries@[i];
            let target = remote_child_spec(destination_dir@, e.name@);
            if i < 0 || target == e.path@ {
                r is None
            } else {
                r matches Some((from, to)) && from@ == e.path@ && to@ == target
            }
        }),
{
    let i = match find_entry(&state.entries, entry_id) {
        Some(i) => i,
        None => return None,
    };
    let entry = &state.entries[i];
    let target = remote_child_path(destination_dir, entry.name.as_str());
    if same_text(target.as_str(), entry.path.as_str()) {
        None
    } else {
        Some((entry.path.clone(), target))
    }
}

/// Only the listing and the selection of `a` and `b` may differ.
pub open spec fn same_but_listing(a: SftpSessionBindingState, b: SftpSessionBindingState) -> bool {
    &&& a.mode == b.mode
    &&& a.follow_mode == b.follow_mode
    &&& a.current_path@ == b.current_path@
    &&& a.history@ == b.history@
    &&& a.last_error == b.last_error
}

/// The listing after the entry `entry_id` moved to `target_path` in
/// `destination_dir`: when the destination is the folder shown, the entry
/// takes its new path and name and is the only one selected; otherwise it
/// leaves the listing and the selection.
pub fn apply_entry_moved(state: &mut SftpSessionBindingState, entry_id: &str, target_path: &str, destination_dir: &str)
    ensures
        same_but_listing(*final(state), *old(state)),
        ({
            let i = first_where(old(state).entries@, entry_has_id(entry_id@));
            if normalize_remote_dir_spec(old(state).current_path@) == normalize_remote_dir_spec(destination_dir@) {
                if i < 0 {
                    final(state).entries@ == old(state).entries@
                        && final(state).selected_entry_ids@ == old(state).selected_entry_ids@
                } else {
                    let e = old(state).entries@[i];
                    let m = final(state).entries@[i];
                    &&& final(state).entries@ == old(state).entries@.update(i, m)
                    &&& m.path@ == target_path@
                    &&& m.name@ == last_segment(target_path@)
                    &&& m == (SftpDirectoryEntry { path: m.path, name: m.name, ..e })
                    &&& texts_view(final(state).selected_entry_ids@) == seq![e.id@]
                }
            } else {
                &&& final(state).entries@ == old(state).entries@.filter(|e: SftpDirectoryEntry| !entry_has_id(entry_id@)(e))
                &&& texts_view(final(state).selected_entry_ids@)
                    == texts_view(old(state).selected_entry_ids@).filter(|s: Seq<char>| s != entry_id@)
            }
        }),
{
    if same_remote_dir(state.current_path.as_str(), destination_dir) {
        match find_entry(&state.entries, entry_id) {
            Some(i) => {
                let mut item = state.entries[i].copy();
                item.path = String::from_str(target_path);
                item.name = last_segment_of(target_path);
                let id = item.id.clone();
                state.entries.set(i, item);
                state.selected_entry_ids = vec![id];
                assert(texts_view(state.selected_entry_ids@) =~= seq![old(state).entries@[i as int].id@]);
            },
            None => {},
        }
    } else {
        let ghost keep = |e: SftpDirectoryEntry| !entry_has_id(entry_id@)(e);
        let mut kept: Vec<SftpDirectoryEntry> = Vec::new();
        let mut i: usize = 0;
        while i < state.entries.len()
            invariant
                i <= state.entries@.len(),
                keep == (|e: SftpDirectoryEntry| !entry_has_id(entry_id@)(e)),
                kept@ == state.entries@.take(i as int).filter(keep),
            decreases state.entries.len() - i,
        {
            proof { crate::seqs::lemma_filter_take_step(state.entries@, i as int, keep); }
            if !same_text(state.entries[i].id.as_str(), entry_id) {
                kept.push(state.entries[i].copy());
            }
            i = i + 1;
        }
        assert(state.entries@.take(i as int) =~= state.entries@);
        let ghost sel_keep = |s: Seq<char>| s != entry_id@;
        let mut selected: Vec<String> = Vec::new();
        let mut k: usize = 0;
        while k < state.selected_entry_ids.len()
            invariant
                k <= state.selected_entry_ids@.len(),
                sel_keep == (|s: Seq<char>| s != entry_id@),
                texts_view(selected@) == texts_view(state.selected_entry_ids@).take(k as int).filter(sel_keep),
            decreases state.selected_entry_ids.len() - k,
        {
            proof {
                crate::seqs::lemma_filter_take_step(texts_view(state.selected_entry_ids@), k as int, sel_keep);
            }
            let ghost before = selected@;
            if !same_text(state.selected_entry_ids[k].as_str(), entry_id) {
                selected.push(state.selected_entry_ids[k].clone());
                assert(texts_view(selected@) =~= texts_view(before).push(state.selected_entry_ids@[k as int]@));
            }
            k = k + 1;
        }
        assert(texts_view(state.selected_entry_ids@).take(k as int) =~= texts_view(state.selected_entry_ids@));
        state.entries = kept;
        state.selected_entry_ids = selected;
    }
}

/// The entry's identifier is one of `ids`.
pub open spec fn entry_in(ids: Seq<Seq<char>>) -> spec_fn(SftpDirectoryEntry) -> bool {
    |e: SftpDirectoryEntry| ids.contains(e.id@)
}

fn contains_id(ids: &[String], id: &str) -> (r: bool)
    ensures
        r == texts_view(ids@).contains(id@),
{
    let mut i: usize = 0;
    while i < ids.len()
        invariant
            i <= ids@.len(),
            forall|j: int| 0 <= j < i ==> ids@[j]@ != id@,
        decreases ids.len() - i,
    {
        if same_text(ids[i].as_str(), id) {
            assert(texts_view(ids@)[i as int] == id@);
            return true;
        }
        i = i + 1;
    }
    proof {
        if texts_view(ids@).contains(id@) {
            let j = choose|j: int| 0 <= j < texts_view(ids@).len() && texts_view(ids@)[j] == id@;
            assert(ids@[j]@ == id@);
        }
    }
    false
}

/// The listed entries whose identifiers are among `entry_ids`, in listing order.
pub fn entries_to_delete(state: &SftpSessionBindingState, entry_ids: &[String]) -> (r: Vec<SftpDirectoryEntry>)
    ensures
        r@ == state.entries@.filter(entry_in(texts_view(entry_ids@))),
{
    let ghost p = entry_in(texts_view(entry_ids@));
    let mut out: Vec<SftpDirectoryEntry> = Vec::new();
    let mut i: usize = 0;
    while i < state.entries.len()
        invariant
            i <= state.entries@.len(),
            p == entry_in(texts_view(entry_ids@)),
            out@ == state.entries@.take(i as int).filter(p),
        decreases state.entries.len() - i,
    {
        proof { crate::seqs::lemma_filter_take_step(state.entries@, i as int, p); }
        if contains_id(entry_ids, state.entries[i].id.as_str()) {
            out.push(state.entries[i].copy());
        }
        i = i + 1;
    }
    assert(state.entries@.take(i as int) =~= state.entries@);
    out
}

/// The remote paths of `entries`, in order.
pub fn entry_paths(entries: &[SftpDirectoryEntry]) -> (r: Vec<String>)
    ensures
        texts_view(r@) == entries@.map_values(|e: SftpDirectoryEntry| e.path@),
{
    let mut out: Vec<String> = Vec::new();
    let mut i: usize = 0;
    while i < entries.len()
        invariant
            i <= entries@.len(),
            texts_view(out@) == entries@.take(i as int).map_values(|e: SftpDirectoryEntry| e.path@),
        decreases entries.len() - i,
    {
        out.push(entries[i].path.clone());
        assert(entries@.take(i + 1).map_values(|e: SftpDirectoryEntry| e.path@)
            =~= entries@.take(i as int).map_values(|e: SftpDirectoryEntry| e.path@).push(entries@[i as int].path@));
        assert(texts_view(out@) =~= texts_view(out@.drop_last()).push(out@.last()@));
        i = i + 1;
    }
    assert(entries@.take(i as int) =~= entries@);
    out
}

/// The listing once the entries `entry_ids` are deleted: they leave the
/// listing and the selection.
pub fn forget_deleted_entries(state: &mut SftpSessionBindingState, entry_ids: &[String])
    ensures
        same_but_listing(*final(state), *old(state)),
        final(state).entries@ == old(state).entries@.filter(|e: SftpDirectoryEntry| !entry_in(texts_view(entry_ids@))(e)),
        texts_view(final(state).selected_entry_ids@)
            == texts_view(old(state).selected_entry_ids@).filter(|s: Seq<char>| !texts_view(entry_ids@).contains(s)),
{
    let ghost keep = |e: SftpDirectoryEntry| !entry_in(texts_view(entry_ids@))(e);
    let mut kept: Vec<SftpDirectoryEntry> = Vec::new();
    let mut i: usize = 0;
    while i < state.entries.len()
        invariant
            i <= state.entries@.len(),
            keep == (|e: SftpDirectoryEntry| !entry_in(texts_view(entry_ids@))(e)),
            kept@ == state.entries@.take(i as int).filter(keep),
        decreases state.entries.len() - i,
    {
        proof { crate::seqs::lemma_filter_take_step(state.entries@, i as int, keep); }
        if !contains_id(entry_ids, state.entries[i].id.as_str()) {
            kept.push(state.entries[i].copy());
        }
        i = i + 1;
    }
    assert(state.entries@.take(i as int) =~= state.entries@);
    let ghost sel_keep = |s: Seq<char>| !texts_view(entry_ids@).contains(s);
    let mut selected: Vec<String> = Vec::new();
    let mut k: usize = 0;
    while k < state.selected_entry_ids.len()
        invariant
            k <= state.selected_entry_ids@.len(),
            sel_keep == (|s: Seq<char>| !texts_view(entry_ids@).contains(s)),
            texts_view(selected@) == texts_view(state.selected_entry_ids@).take(k as int).filter(sel_keep),
        decreases state.selected_entry_ids.len() - k,
    {
        proof {
            crate::seqs::lemma_filter_take_step(texts_view(state.selected_entry_ids@), k as int, sel_keep);
        }
        let ghost before = selected@;
        if !contains_id(entry_ids, state.selected_entry_ids[k].as_str()) {
            selected.push(state.selected_entry_ids[k].clone());
            assert(texts_view(selected@) =~= texts_view(before).push(state.selected_entry_ids@[k as int]@));
        }
        k = k + 1;
    }
    assert(texts_view(state.selected_entry_ids@).take(k as int) =~= texts_view(state.selected_entry_ids@));
    state.entries = kept;
    state.selected_entry_ids = selected;
}

// ---------------------------------------------------------------------------
// Walking the remote folders of a download
// ---------------------------------------------------------------------------

/// A download target as plain values: remote path, local path, kind, size.
pub type TargetView = (Seq<char>, Seq<char>, SftpDirectoryEntryKind, u64);

/// Where the remote entry `e` is downloaded to inside `local_dir`; a folder
/// counts for no bytes, a file of unknown size for none either.
pub open spec fn target_of(local_dir: Seq<char>, e: SftpDirectoryEntry) -> TargetView {
    (
        e.path@,
        local_join_spec(local_dir, e.name@),
        e.kind,
        if e.kind == SftpDirectoryEntryKind::Directory {
            0
        } else {
            match e.size_bytes {
                Some(n) => n,
                None => 0,
            }
        },
    )
}

pub open spec fn targets_for(local_dir: Seq<char>, entries: Seq<SftpDirectoryEntry>) -> Seq<TargetView> {
    entries.map_values(|e: SftpDirectoryEntry| target_of(local_dir, e))
}

/// The folders among `entries` still to be listed, each with the local folder it goes to.
pub open spec fn folders_for(local_dir: Seq<char>, entries: Seq<SftpDirectoryEntry>) -> Seq<(Seq<char>, Seq<char>)> {
    entries.filter(|e: SftpDirectoryEntry| e.kind == SftpDirectoryEntryKind::Directory).map_values(
        |e: SftpDirectoryEntry| (e.path@, local_join_spec(local_dir, e.name@)),
    )
}

pub open spec fn download_target_view(t: DownloadTransferEntry) -> TargetView {
    (t.remote_path@, t.local_path@, t.entry_kind, t.bytes_total)
}

pub open spec fn folder_view(f: (String, String)) -> (Seq<char>, Seq<char>) {
    (f.0@, f.1@)
}

/// The download targets found so far, and the remote folders still to be
/// listed (the last one is listed next).
pub struct DownloadTargetWalk {
    pub targets: Vec<DownloadTransferEntry>,
    pub pending: Vec<(String, String)>,
}

impl DownloadTargetWalk {
    pub open spec fn targets_view(&self) -> Seq<TargetView> {
        self.targets@.map_values(|t: DownloadTransferEntry| download_target_view(t))
    }

    pub open spec fn pending_view(&self) -> Seq<(Seq<char>, Seq<char>)> {
        self.pending@.map_values(|f: (String, String)| folder_view(f))
    }

    /// Adds the entries of `local_dir`'s remote counterpart.
    fn add_entries(&mut self, local_dir: &str, entries: &[SftpDirectoryEntry])
        ensures
            final(self).targets_view() == old(self).targets_view() + targets_for(local_dir@, entries@),
            final(self).pending_view() == old(self).pending_view() + folders_for(local_dir@, entries@),
    {
        let ghost t0 = self.targets_view();
        let ghost p0 = self.pending_view();
        let ghost is_dir = |e: SftpDirectoryEntry| e.kind == SftpDirectoryEntryKind::Directory;
        let ghost to_folder = |e: SftpDirectoryEntry| (e.path@, local_join_spec(local_dir@, e.name@));
        let mut i: usize = 0;
        while i < entries.len()
            invariant
                i <= entries@.len(),
                is_dir == (|e: SftpDirectoryEntry| e.kind == SftpDirectoryEntryKind::Directory),
                to_folder == (|e: SftpDirectoryEntry| (e.path@, local_join_spec(local_dir@, e.name@))),
                self.targets_view() == t0 + targets_for(local_dir@, entries@.take(i as int)),
                self.pending_view() == p0 + entries@.take(i as int).filter(is_dir).map_values(to_folder),
            decreases entries.len() - i,
        {
            let e = &entries[i];
            let local_path = local_join(local_dir, e.name.as_str());
            let is_directory = e.kind == SftpDirectoryEntryKind::Directory;
            let bytes_total = if is_directory {
                0
            } else {
                match e.size_bytes {
                    Some(n) => n,
                    None => 0,
                }
            };
            let ghost tb = self.targets@;
            let ghost pb = self.pending@;
            self.targets.push(DownloadTransferEntry {
                remote_path: e.path.clone(),
                local_path: local_path.clone(),
                entry_kind: e.kind,
                bytes_total,
            });
            proof {
                crate::seqs::lemma_filter_take_step(entries@, i as int, is_dir);
                assert(self.targets@ == tb.push(self.targets@.last()));
                assert(self.targets_view() =~= tb.map_values(|t: DownloadTransferEntry| download_target_view(t)).push(
                    download_target_view(self.targets@.last()),
                ));
                assert(targets_for(local_dir@, entries@.take(i + 1)) =~= targets_for(local_dir@, entries@.take(i as int)).push(
                    target_of(local_dir@, entries@[i as int]),
                ));
            }
            if is_directory {
                self.pending.push((e.path.clone(), local_path));
                proof {
                    assert(self.pending_view() =~= pb.map_values(|f: (String, String)| folder_view(f)).push(
                        folder_view(self.pending@.last()),
                    ));
                    assert(entries@.take(i + 1).filter(is_dir) == entries@.take(i as int).filter(is_dir).push(entries@[i as int]));
                }
            } else {
                proof {
                    assert(entries@.take(i + 1).filter(is_dir) == entries@.take(i as int).filter(is_dir));
                }
            }
            i = i + 1;
        }
        assert(entries@.take(i as int) =~= entries@);
    }

    /// The walk of a download of `entries` into `local_root`.
    pub fn new(local_root: &str, entries: &[SftpDirectoryEntry]) -> (r: Self)
        ensures
            r.targets_view() == targets_for(local_root@, entries@),
            r.pending_view() == folders_for(local_root@, entries@),
    {
        let mut walk = DownloadTargetWalk { targets: Vec::new(), pending: Vec::new() };
        assert(walk.targets_view() =~= Seq::<TargetView>::empty());
        assert(walk.pending_view() =~= Seq::<(Seq<char>, Seq<char>)>::empty());
        walk.add_entries(local_root, entries);
        assert(walk.targets_view() =~= targets_for(local_root@, entries@));
        assert(walk.pending_view() =~= folders_for(local_root@, entries@));
        walk
    }

    /// The remote folder to list next, with its local folder; none when the walk is over.
    pub fn next_folder(&mut self) -> (r: Option<(String, String)>)
        ensures
            final(self).targets_view() == old(self).targets_view(),
            old(self).pending@.len() == 0 ==> r is None && final(self).pending@.len() == 0,
            old(self).pending@.len() > 0 ==> (r matches Some(f) && folder_view(f) == old(self).pending_view().last()
                && final(self).pending_view() == old(self).pending_view().drop_last()),
    {
        let r = self.pending.pop();
        proof {
            if old(self).pending@.len() > 0 {
                assert(self.pending_view() =~= old(self).pending_view().drop_last());
            }
        }
        r
    }

    /// Records the listing of the remote folder whose local folder is `local_dir`.
    pub fn add_listing(&mut self, local_dir: &str, listing: &[SftpDirectoryEntry])
        ensures
            final(self).targets_view() == old(self).targets_view() + targets_for(local_dir@, listing@),
            final(self).pending_view() == old(self).pending_view() + folders_for(local_dir@, listing@),
    {
        self.add_entries(local_dir, listing);
    }
}

/// The size a download counts with: what the server says, else the larger
/// of the size recorded and what is already on disk.
pub fn download_total(recorded_total: u64, remote_size: Option<u64>, resume_offset: u64) -> (r: u64)
    ensures
        r == match remote_size {
            Some(s) => s,
            None => if recorded_total >= resume_offset { recorded_total } else { resume_offset },
        },
{
    match remote_size {
        Some(s) => s,
        None => if recorded_total >= resume_offset { recorded_total } else { resume_offset },
    }
}

} // verus!
