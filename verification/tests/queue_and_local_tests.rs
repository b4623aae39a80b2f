use mica_term::local_sources::sort_local_sources;
use mica_term::sftp_clipboard::{
    clipboard_cache_session_directory_id, new_clipboard_file_name, select_old_session_dirs, session_cleanup_verdict,
    should_remove_session_dir, stale_cutoff, is_absolute_remote_home, SessionCacheCleanupVerdict,
    CLIPBOARD_CACHE_RETENTION_SECONDS, MAX_CLIPBOARD_CACHE_FILES_SCANNED_PER_SESSION,
};
use mica_term::sftp_local::{
    file_manager_uri, prepare_local_open_path, resolve_local_file_target, resolve_local_open_target,
    resolve_local_reveal_target, resolve_local_trash_target, sanitize_file_name, working_copy_has_changed,
    LocalOpenError, LocalPathFacts, SftpOpenAction, WorkingCopySnapshot,
};
use mica_term::sftp_model::{SftpDirectoryEntry, SftpDirectoryEntryKind};
use mica_term::sftp_queue::{
    LocalTransferEntry, TransferConflictPolicy, TransferDirection, TransferQueue, TransferTaskState,
};

fn remote(name: &str, kind: SftpDirectoryEntryKind, modified: Option<u64>) -> SftpDirectoryEntry {
    SftpDirectoryEntry {
        id: format!("/srv/{name}"),
        name: name.to_string(),
        path: format!("/srv/{name}"),
        kind,
        modified_unix_seconds: modified,
        size_bytes: Some(10),
        permissions_label: None,
        owner_label: None,
        group_label: None,
    }
}

fn facts(exists: bool, is_file: bool, is_dir: bool, parent: Option<&str>) -> LocalPathFacts {
    LocalPathFacts { exists, is_file, is_dir, parent_dir: parent.map(str::to_string) }
}

#[test]
fn queue_tracks_task_states_and_summary() {
    let mut queue = TransferQueue::default();
    let ids = queue.enqueue_download(
        "s1",
        "/downloads",
        &[remote("a.txt", SftpDirectoryEntryKind::File, None), remote("dir", SftpDirectoryEntryKind::Directory, None)],
    );
    assert_eq!(ids.len(), 2);
    assert_eq!(queue.tasks.len(), 2);
    assert_eq!(queue.tasks[0].target_path, "/downloads/a.txt");
    assert_eq!(queue.tasks[0].direction, TransferDirection::Download);
    assert_eq!(queue.tasks[0].state, TransferTaskState::Queued);
    let uploads = queue.enqueue_upload(
        "s2",
        "/srv/in",
        &[LocalTransferEntry { local_path: "/home/me/x.bin".into(), relative_path: "x.bin".into(), bytes_total: 5 }],
    );
    assert_eq!(queue.tasks[2].target_path, "/srv/in/x.bin");

    assert!(queue.mark_running(&ids[0]));
    assert!(queue.mark_completed(&ids[0], 42));
    assert_eq!(queue.task(&ids[0]).unwrap().bytes_total, 10);
    assert_eq!(queue.task(&ids[0]).unwrap().bytes_transferred, 42);
    assert!(queue.mark_failed(&ids[1], "boom".into()));
    assert!(queue.mark_conflict(&uploads[0], "exists".into()));
    assert!(queue.resume_conflict(&uploads[0], TransferConflictPolicy::Overwrite));
    assert_eq!(queue.task(&uploads[0]).unwrap().state, TransferTaskState::Queued);
    assert!(!queue.resume_conflict(&uploads[0], TransferConflictPolicy::Skip));
    assert!(!queue.mark_running("missing"));

    let summary = queue.summary(Some("s1"));
    assert_eq!(summary.total_count, 3);
    assert_eq!(summary.completed_count, 1);
    assert_eq!(summary.failed_count, 1);
    assert_eq!(summary.queued_count, 1);
    assert_eq!(summary.current_session_count, 2);
    assert_eq!(queue.queued_task_ids(), vec![uploads[0].clone()]);
}

#[test]
fn deleting_a_path_cancels_queued_transfers_below_it() {
    let mut queue = TransferQueue::default();
    queue.enqueue_download("s1", "/downloads", &[remote("a.txt", SftpDirectoryEntryKind::File, None)]);
    queue.enqueue_download("s2", "/downloads", &[remote("a.txt", SftpDirectoryEntryKind::File, None)]);
    let cancelled = queue.cancel_conflicting_paths("s1", &["/srv/a.txt".to_string()]);
    assert_eq!(cancelled, 1);
    assert_eq!(queue.tasks[0].state, TransferTaskState::Cancelled);
    assert_eq!(queue.tasks[1].state, TransferTaskState::Queued);
}

#[test]
fn local_open_targets_report_each_reason() {
    assert_eq!(resolve_local_open_target("", &facts(true, true, false, None)), Err(LocalOpenError::PathEmpty));
    assert_eq!(resolve_local_open_target("/x", &facts(false, false, false, None)), Err(LocalOpenError::PathMissing));
    assert_eq!(resolve_local_open_target("/x", &facts(true, false, true, None)), Ok(()));
    assert_eq!(resolve_local_file_target("/x", &facts(true, false, true, None)), Err(LocalOpenError::NotAFile));
    assert_eq!(resolve_local_file_target("/x", &facts(false, false, false, None)), Err(LocalOpenError::FileMissing));
    assert_eq!(resolve_local_trash_target("/x", &facts(false, false, false, None)), Err(LocalOpenError::AlreadyMissing));
    assert_eq!(resolve_local_trash_target("/x", &facts(true, true, false, None)), Ok("/x".to_string()));
    let reveal = resolve_local_reveal_target("/d/f.txt", &facts(true, true, false, Some("/d"))).unwrap();
    assert_eq!(reveal.directory_path, "/d");
    assert_eq!(reveal.reveal_path.as_deref(), Some("/d/f.txt"));
    assert_eq!(
        resolve_local_reveal_target("/gone/f.txt", &facts(false, false, false, None)),
        Err(LocalOpenError::ContainingFolderMissing)
    );
    assert_eq!(LocalOpenError::NotAFile.message(), "Local file target is not a file.");
}

#[test]
fn staged_paths_and_uris() {
    assert_eq!(sanitize_file_name("a:b*c?.txt"), "a_b_c_.txt");
    assert_eq!(sanitize_file_name("   "), "remote-file");
    let staged = prepare_local_open_path("/tmp", 0, "/srv/report.pdf", SftpOpenAction::EditLocally);
    assert!(staged.starts_with("/tmp/mica-term/sftp/working-copies/00000000-0000-0000-0000-000000000000/"));
    assert!(staged.ends_with("-report.pdf"));
    assert_eq!(file_manager_uri("/home/me/my file.txt"), "file:///home/me/my%20file.txt");
    let a = Some(WorkingCopySnapshot { modified_at: Some(1), size_bytes: 3 });
    let b = Some(WorkingCopySnapshot { modified_at: Some(2), size_bytes: 3 });
    assert!(working_copy_has_changed(&a, &b));
    assert!(!working_copy_has_changed(&a, &a));
    assert!(working_copy_has_changed(&a, &None));
}

#[test]
fn clipboard_cache_housekeeping() {
    assert_eq!(stale_cutoff(CLIPBOARD_CACHE_RETENTION_SECONDS + 5), 5);
    assert_eq!(stale_cutoff(3), 0);
    let name = new_clipboard_file_name();
    assert!(name.starts_with("mica-clipboard-") && name.ends_with(".png"));
    let id_dir = remote("00000000-0000-0000-0000-000000000007", SftpDirectoryEntryKind::Directory, Some(5));
    assert_eq!(clipboard_cache_session_directory_id(&id_dir), Some(7));
    assert_eq!(clipboard_cache_session_directory_id(&remote("junk", SftpDirectoryEntryKind::Directory, None)), None);
    let other = remote("00000000-0000-0000-0000-000000000009", SftpDirectoryEntryKind::Directory, Some(2));
    let undated = remote("00000000-0000-0000-0000-00000000000a", SftpDirectoryEntryKind::Directory, None);
    let selected = select_old_session_dirs(&[id_dir.clone(), undated, other], 7);
    assert_eq!(selected, vec![(9, Some(2)), (10, None)]);
    assert_eq!(
        session_cleanup_verdict(MAX_CLIPBOARD_CACHE_FILES_SCANNED_PER_SESSION + 1, true),
        SessionCacheCleanupVerdict::NotConfirmed
    );
    assert_eq!(session_cleanup_verdict(0, false), SessionCacheCleanupVerdict::ConfirmedEmpty);
    assert_eq!(session_cleanup_verdict(3, true), SessionCacheCleanupVerdict::Recheck);
    assert!(should_remove_session_dir(true, Some(1), 2));
    assert!(!should_remove_session_dir(true, None, 2));
    assert!(is_absolute_remote_home("/home/me"));
    assert!(!is_absolute_remote_home("home"));
}

#[test]
fn local_sources_are_queued_component_by_component() {
    let entry = |local: &str, relative: &str| LocalTransferEntry {
        local_path: local.to_string(),
        relative_path: relative.to_string(),
        bytes_total: 1,
    };
    let sorted = sort_local_sources(&vec![
        entry("/x/a-b", "a-b"),
        entry("/x/a/b", "a/b"),
        entry("/y/z", "z"),
        entry("/x/a", "a"),
        entry("/w/z", "z"),
    ]);
    let order: Vec<&str> = sorted.iter().map(|e| e.local_path.as_str()).collect();
    assert_eq!(order, vec!["/x/a", "/x/a/b", "/x/a-b", "/y/z", "/w/z"]);
}
