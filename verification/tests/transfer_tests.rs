use mica_term::sftp_model::{SftpDirectoryEntry, SftpDirectoryEntryKind, SftpSessionBindingState};
use mica_term::sftp_clipboard::SftpRemoteMetadata;
use mica_term::sftp_queue::{
    LocalTransferEntry, TransferConflictPolicy, TransferQueue, TransferTaskAction, TransferTaskState,
};
use mica_term::sftp_transfers::{
    apply_entry_moved, begin_transfer, conflict_target, download_total, entries_to_delete, entry_paths, forget_deleted_entries,
    has_blocking_download_directory_conflict, planned_move, remote_ancestor_dirs, start_decision,
    validate_download_resume, validate_upload_resume, DownloadTargetWalk, TransferResumeError, TransferStartDecision,
    TransferTarget,
};

fn remote(dir: &str, name: &str, kind: SftpDirectoryEntryKind, size: Option<u64>) -> SftpDirectoryEntry {
    SftpDirectoryEntry {
        id: format!("{dir}/{name}"),
        name: name.to_string(),
        path: format!("{dir}/{name}"),
        kind,
        modified_unix_seconds: None,
        size_bytes: size,
        permissions_label: None,
        owner_label: None,
        group_label: None,
    }
}

fn listing_state() -> SftpSessionBindingState {
    let mut state = SftpSessionBindingState::follow("/srv");
    state.entries = vec![
        remote("/srv", "a.txt", SftpDirectoryEntryKind::File, Some(1)),
        remote("/srv", "b.txt", SftpDirectoryEntryKind::File, Some(2)),
        remote("/srv", "dir", SftpDirectoryEntryKind::Directory, None),
    ];
    state.selected_entry_ids = vec!["/srv/a.txt".into(), "/srv/b.txt".into()];
    state
}

#[test]
fn remote_parent_folders_are_listed_outermost_first() {
    assert_eq!(remote_ancestor_dirs("/srv/data/in/file.bin"), vec!["/srv", "/srv/data", "/srv/data/in"]);
    assert_eq!(remote_ancestor_dirs("/file.bin"), Vec::<String>::new());
    assert_eq!(remote_ancestor_dirs("relative"), Vec::<String>::new());
    assert_eq!(remote_ancestor_dirs("/srv//x/"), vec!["/srv/"]);
}

#[test]
fn upload_resume_requires_an_unchanged_source() {
    let mut queue = TransferQueue::default();
    queue.enqueue_upload("s", "/srv", &[LocalTransferEntry { local_path: "/l/x".into(), relative_path: "x".into(), bytes_total: 10 }]);
    let task = &queue.tasks[0];
    assert_eq!(validate_upload_resume(task, 10, 4), Ok(()));
    assert_eq!(
        validate_upload_resume(task, 11, 4),
        Err(TransferResumeError::SourceChanged { source_path: "/l/x".into() })
    );
    let beyond = validate_upload_resume(task, 10, 12).unwrap_err();
    assert_eq!(beyond, TransferResumeError::CheckpointBeyondSource { remote_offset: 12, source_path: "/l/x".into() });
    assert_eq!(beyond.message(), "remote upload checkpoint `12` exceeds local source `/l/x`; restart required");
    let meta = SftpRemoteMetadata { size_bytes: Some(3), modified_unix_seconds: None };
    assert_eq!(
        validate_download_resume(task, 4, &meta),
        Err(TransferResumeError::RemoteSmaller { source_path: "/l/x".into() })
    );
    let unknown = SftpRemoteMetadata { size_bytes: None, modified_unix_seconds: None };
    assert_eq!(validate_download_resume(task, 10, &unknown), Ok(()));
}

#[test]
fn existing_targets_wait_for_a_choice() {
    let mut queue = TransferQueue::default();
    let ids = queue.enqueue_upload(
        "s",
        "/srv",
        &[LocalTransferEntry { local_path: "/l/x".into(), relative_path: "x".into(), bytes_total: 1 }],
    );
    let id = ids[0].clone();
    assert_eq!(conflict_target(&queue.tasks[0]), Some(TransferTarget::Remote { path: "/srv/x".into() }));
    assert_eq!(
        start_decision(&queue.tasks[0], true),
        TransferStartDecision::Conflict { message: "Remote path already exists".into() }
    );
    assert_eq!(start_decision(&queue.tasks[0], false), TransferStartDecision::Proceed);
    assert!(!begin_transfer(&mut queue, &id, true));
    assert_eq!(queue.tasks[0].state, TransferTaskState::Conflict);
    assert!(queue.resume_conflict(&id, TransferConflictPolicy::Skip));
    assert!(!begin_transfer(&mut queue, &id, true));
    assert_eq!(queue.tasks[0].state, TransferTaskState::Cancelled);
    assert_eq!(queue.tasks[0].error_message.as_deref(), Some("Skipped existing remote path"));
    queue.tasks[0].state = TransferTaskState::Conflict;
    assert!(queue.resume_conflict(&id, TransferConflictPolicy::Overwrite));
    assert!(begin_transfer(&mut queue, &id, true));
    assert_eq!(queue.tasks[0].state, TransferTaskState::Running);
    assert!(!begin_transfer(&mut queue, "missing", false));
}

#[test]
fn downloads_wait_behind_a_folder_download_in_conflict() {
    let mut queue = TransferQueue::default();
    let ids = queue.enqueue_download(
        "s",
        "/downloads",
        &[remote("/srv", "dir", SftpDirectoryEntryKind::Directory, None), remote("/srv", "x", SftpDirectoryEntryKind::File, None)],
    );
    queue.tasks.push(queue.tasks[1].clone());
    queue.tasks[2].id = "inner".into();
    queue.tasks[2].action = TransferTaskAction::Download { local_path: "/downloads/dir/inner.txt".into() };
    assert!(!begin_transfer(&mut queue, &ids[0], true));
    assert_eq!(queue.tasks[0].state, TransferTaskState::Conflict);
    assert!(has_blocking_download_directory_conflict(&queue, &queue.tasks[2]));
    assert!(!has_blocking_download_directory_conflict(&queue, &queue.tasks[1]));
    assert!(!begin_transfer(&mut queue, "inner", false));
    assert_eq!(queue.tasks[2].state, TransferTaskState::Queued);
    assert!(begin_transfer(&mut queue, &ids[1], false));
}

#[test]
fn moving_an_entry_updates_the_listing() {
    let state = listing_state();
    assert_eq!(planned_move(&state, "/srv/a.txt", "/srv"), None);
    assert_eq!(planned_move(&state, "missing", "/tmp"), None);
    assert_eq!(
        planned_move(&state, "/srv/a.txt", "/srv/dir/"),
        Some(("/srv/a.txt".to_string(), "/srv/dir/a.txt".to_string()))
    );

    let mut shown = listing_state();
    apply_entry_moved(&mut shown, "/srv/dir", "/srv/renamed", "/srv/");
    assert_eq!(shown.entries[2].path, "/srv/renamed");
    assert_eq!(shown.entries[2].name, "renamed");
    assert_eq!(shown.selected_entry_ids, vec!["/srv/dir".to_string()]);

    let mut elsewhere = listing_state();
    apply_entry_moved(&mut elsewhere, "/srv/a.txt", "/tmp/a.txt", "/tmp");
    assert_eq!(elsewhere.entries.len(), 2);
    assert_eq!(elsewhere.selected_entry_ids, vec!["/srv/b.txt".to_string()]);
}

#[test]
fn deleting_entries_updates_the_listing() {
    let mut state = listing_state();
    let ids = vec!["/srv/dir".to_string(), "/srv/a.txt".to_string(), "unknown".to_string()];
    let doomed = entries_to_delete(&state, &ids);
    assert_eq!(doomed.len(), 2);
    assert_eq!(doomed[0].name, "a.txt");
    assert_eq!(entry_paths(&doomed), vec!["/srv/a.txt".to_string(), "/srv/dir".to_string()]);
    forget_deleted_entries(&mut state, &ids);
    assert_eq!(state.entries.len(), 1);
    assert_eq!(state.entries[0].name, "b.txt");
    assert_eq!(state.selected_entry_ids, vec!["/srv/b.txt".to_string()]);
}

#[test]
fn download_walk_lists_folders_last_in_first_out() {
    let mut walk = DownloadTargetWalk::new(
        "/downloads",
        &[remote("/srv", "a.txt", SftpDirectoryEntryKind::File, Some(5)), remote("/srv", "dir", SftpDirectoryEntryKind::Directory, Some(99))],
    );
    assert_eq!(walk.targets.len(), 2);
    assert_eq!(walk.targets[0].local_path, "/downloads/a.txt");
    assert_eq!(walk.targets[0].bytes_total, 5);
    assert_eq!(walk.targets[1].bytes_total, 0);
    let (remote_dir, local_dir) = walk.next_folder().expect("one folder to list");
    assert_eq!(remote_dir, "/srv/dir");
    assert_eq!(local_dir, "/downloads/dir");
    walk.add_listing(&local_dir, &[remote("/srv/dir", "inner.bin", SftpDirectoryEntryKind::File, None)]);
    assert_eq!(walk.targets[2].local_path, "/downloads/dir/inner.bin");
    assert_eq!(walk.next_folder(), None);
}

#[test]
fn running_tasks_report_progress_chunk_by_chunk() {
    let mut queue = TransferQueue::default();
    queue.enqueue_upload("s", "/srv", &[LocalTransferEntry { local_path: "/l/x".into(), relative_path: "x".into(), bytes_total: 10 }]);
    let id = queue.tasks[0].id.clone();
    assert!(queue.note_progress(&id, 10, 4));
    assert_eq!((queue.tasks[0].bytes_total, queue.tasks[0].bytes_transferred), (10, 4));
    assert!(queue.note_progress(&id, 10, 10));
    assert_eq!(queue.tasks[0].bytes_transferred, 10);
    assert!(!queue.note_progress("missing", 1, 1));
    assert_eq!(download_total(7, Some(20), 3), 20);
    assert_eq!(download_total(7, None, 3), 7);
    assert_eq!(download_total(2, None, 3), 3);
}
