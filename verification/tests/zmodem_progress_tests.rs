use mica_term::zmodem_model::{ZmodemDownloadConflictPolicy, ZmodemTransferDirection, ZmodemTransferPhase};
use mica_term::zmodem_progress::{
    abort_wire_bytes, check_upload_file, fail_state, receiver_candidate_path, resolve_receiver_target,
    transfer_was_active, DownloadEventError, DownloadProgress, DownloadStep, FileStart, FileStartDecision,
    FileStartRoute, ReceiverTarget, UploadFile, UploadFileError, UploadProgress, UploadStartError, UploadStatus,
};

fn upload_file(name: &str, size: u64) -> UploadFile {
    UploadFile { path: format!("/tmp/{name}"), display_name: name.to_string(), size_bytes: size }
}

#[test]
fn upload_refuses_an_empty_selection() {
    let mut upload = UploadProgress::new();
    assert_eq!(upload.start(Vec::new()), Err(UploadStartError::NoFiles));
    assert_eq!(UploadStartError::NoFiles.message(), "no files were selected");
    assert_eq!(upload.state().phase, ZmodemTransferPhase::AwaitingUploadSelection);
}

#[test]
fn upload_counts_bytes_per_file_and_completes() {
    let mut upload = UploadProgress::new();
    upload.start(vec![upload_file("a.txt", 10), upload_file("b.txt", 5)]).expect("start");
    upload.sync_running_state(UploadStatus::Preparing);
    assert_eq!(upload.state().status_text, "Preparing upload");
    assert_eq!(upload.state().detail_text, "File 1 of 2");
    assert_eq!(upload.state().current_file_name, "a.txt");

    upload.note_file_read(0, 4);
    assert_eq!(upload.state().bytes_transferred, 4);
    assert_eq!(upload.state().bytes_total, Some(15));
    // A read past the end of the file counts no more than the file's size.
    upload.note_file_read(8, 6);
    assert_eq!(upload.state().bytes_transferred, 10);

    assert!(upload.file_completed());
    assert_eq!(upload.completed_bytes_before_current_file(), 10);
    upload.sync_running_state(UploadStatus::Uploading);
    assert_eq!(upload.state().detail_text, "File 2 of 2");
    assert_eq!(upload.state().files_completed, 1);

    assert!(!upload.file_completed());
    upload.sync_running_state(UploadStatus::Finalizing);
    assert_eq!(upload.state().bytes_transferred, 15);
    assert_eq!(upload.state().detail_text, "");

    assert!(!upload.went_idle());
    upload.session_completed();
    assert!(upload.went_idle());
    let state = upload.state();
    assert_eq!(state.phase, ZmodemTransferPhase::Completed);
    assert_eq!(state.headline, "Upload complete");
    assert_eq!(state.status_text, "Transferred 2 file(s) with ZMODEM.");
    assert_eq!(state.files_total, Some(2));
    assert_eq!(state.bytes_transferred, 15);
    assert_eq!(upload.start(vec![upload_file("c", 1)]), Err(UploadStartError::AlreadyFinished));
}

#[test]
fn cancelled_upload_reports_progress_so_far() {
    let mut upload = UploadProgress::new();
    upload.start(vec![upload_file("a", 3), upload_file("b", 4)]).expect("start");
    upload.note_file_read(0, 3);
    assert!(upload.file_completed());
    upload.cancel();
    let state = upload.state();
    assert!(upload.is_finished());
    assert_eq!(state.phase, ZmodemTransferPhase::Cancelled);
    assert_eq!(state.headline, "Upload cancelled");
    assert_eq!(state.files_completed, 1);
    assert_eq!(state.files_total, Some(2));
    assert_eq!(state.bytes_transferred, 3);
    assert_eq!(state.bytes_total, Some(7));
}

#[test]
fn remote_abort_marks_upload_cancelled() {
    let mut upload = UploadProgress::new();
    upload.aborted();
    assert!(upload.is_finished());
    assert_eq!(upload.state().detail_text, "No more files will be sent.");
    assert_eq!(upload.state().direction, ZmodemTransferDirection::Upload);
}

#[test]
fn upload_file_checks_kind_name_and_size() {
    assert_eq!(
        check_upload_file("/tmp/dir".to_string(), false, Some("dir".to_string()), 0),
        Err(UploadFileError::NotAFile { path: "/tmp/dir".to_string() })
    );
    assert_eq!(
        UploadFileError::NotAFile { path: "/tmp/dir".to_string() }.message(),
        "ZMODEM upload currently supports files only: `/tmp/dir`"
    );
    assert_eq!(check_upload_file("/".to_string(), true, None, 1), Err(UploadFileError::MissingName));
    assert_eq!(
        check_upload_file("/big".to_string(), true, Some("big".to_string()), 0x1_0000_0000),
        Err(UploadFileError::TooLarge { path: "/big".to_string() })
    );
    assert_eq!(
        check_upload_file("/ok".to_string(), true, Some("ok".to_string()), 0xffff_ffff),
        Ok(UploadFile { path: "/ok".to_string(), display_name: "ok".to_string(), size_bytes: 0xffff_ffff })
    );
}

#[test]
fn download_defers_announcements_until_a_folder_is_picked() {
    let mut download = DownloadProgress::new();
    assert_eq!(download.before_poll(), DownloadStep::Poll);
    let start = FileStart { name: b"report.txt".to_vec(), size: Some(7) };
    assert_eq!(download.route_file_start(start.clone()), FileStartRoute::Deferred);
    assert_eq!(download.before_poll(), DownloadStep::Idle);
    assert_eq!(download.classify_file_start(&start), Err(DownloadEventError::NoTargetDirectory));

    download.start("/downloads".to_string(), ZmodemDownloadConflictPolicy::Overwrite);
    assert_eq!(download.state.status_text, "Waiting for remote files");
    assert_eq!(download.state.detail_text, "Waiting for the remote sender to begin streaming data.");
    assert_eq!(download.before_poll(), DownloadStep::Deferred(start.clone()));
    assert_eq!(download.before_poll(), DownloadStep::Poll);
    assert_eq!(
        download.classify_file_start(&start),
        Ok(FileStartDecision::Open { target_dir: "/downloads".to_string() })
    );
}

#[test]
fn download_counts_files_and_completes_with_paths() {
    let mut download = DownloadProgress::new();
    download.start("/downloads".to_string(), ZmodemDownloadConflictPolicy::AutoRename);
    let start = FileStart { name: b"report.txt".to_vec(), size: Some(7) };
    download.record_file_opened(start.clone(), "/downloads/report.txt".to_string(), Some("report.txt".to_string()));
    assert_eq!(download.state.detail_text, "Receiving file 1 of at least 1");
    assert_eq!(download.state.bytes_total, Some(7));
    assert_eq!(download.classify_file_start(&start), Ok(FileStartDecision::IgnoreDuplicate));
    let other = FileStart { name: b"other".to_vec(), size: None };
    assert_eq!(download.classify_file_start(&other), Err(DownloadEventError::NewFileBeforeCompletion));

    download.note_written(4);
    download.note_written(3);
    assert_eq!(download.state.bytes_transferred, 7);
    download.file_completed();
    assert_eq!(download.state.detail_text, "1 file(s) received so far.");
    assert_eq!(download.state.status_text, "Waiting for next file");
    assert_eq!(download.classify_file_start(&start), Ok(FileStartDecision::IgnoreDuplicate));

    download.session_completed();
    assert!(download.went_idle());
    assert_eq!(download.state.phase, ZmodemTransferPhase::Completed);
    assert_eq!(download.state.status_text, "Received 1 file(s) with ZMODEM.");
    assert_eq!(download.state.local_file_path, Some("/downloads/report.txt".to_string()));
    assert_eq!(download.state.local_reveal_path, Some("/downloads/report.txt".to_string()));
    assert_eq!(download.before_poll(), DownloadStep::Idle);
}

#[test]
fn download_without_files_reveals_the_folder() {
    let mut download = DownloadProgress::new();
    download.start("/downloads".to_string(), ZmodemDownloadConflictPolicy::AutoRename);
    download.session_completed();
    assert!(download.went_idle());
    assert_eq!(download.state.local_file_path, None);
    assert_eq!(download.state.local_reveal_path, Some("/downloads".to_string()));
    assert_eq!(download.state.files_total, Some(0));
}

#[test]
fn unnamed_download_file_is_shown_as_download() {
    let mut download = DownloadProgress::new();
    download.start("/d".to_string(), ZmodemDownloadConflictPolicy::AutoRename);
    download.record_file_opened(FileStart { name: Vec::new(), size: None }, "/d/download".to_string(), None);
    assert_eq!(download.current_file_name, "download");
    assert_eq!(download.state.bytes_total, None);
    assert_eq!(DownloadEventError::NoTargetDirectory.message(), "download target directory is not selected");
}

#[test]
fn cancelled_download_drops_later_announcements() {
    let mut download = DownloadProgress::new();
    download.cancel();
    assert_eq!(download.state.headline, "Download cancelled");
    assert_eq!(download.state.files_total, None);
    assert!(download.finished);
    let start = FileStart { name: b"x".to_vec(), size: None };
    assert_eq!(download.route_file_start(start), FileStartRoute::Drop);
    assert_eq!(download.before_poll(), DownloadStep::Idle);
}

#[test]
fn remote_abort_marks_download_cancelled() {
    let mut download = DownloadProgress::new();
    download.aborted();
    assert!(download.finished);
    assert_eq!(download.state.detail_text, "No more files will be received.");
}

#[test]
fn received_files_land_in_the_folder_under_a_safe_name() {
    assert_eq!(receiver_candidate_path("/downloads", b"../etc/passwd"), "/downloads/passwd");
    assert_eq!(receiver_candidate_path("/downloads/", b"dir\\file.bin"), "/downloads/file.bin");
    assert_eq!(receiver_candidate_path("/downloads", b".."), "/downloads/download");
    assert_eq!(
        resolve_receiver_target("/d/a".to_string(), true, ZmodemDownloadConflictPolicy::AutoRename),
        ReceiverTarget::RenameBeside("/d/a".to_string())
    );
    assert_eq!(
        resolve_receiver_target("/d/a".to_string(), true, ZmodemDownloadConflictPolicy::Overwrite),
        ReceiverTarget::Write("/d/a".to_string())
    );
    assert_eq!(
        resolve_receiver_target("/d/a".to_string(), false, ZmodemDownloadConflictPolicy::AutoRename),
        ReceiverTarget::Write("/d/a".to_string())
    );
}

#[test]
fn abort_frame_and_failure_state() {
    assert_eq!(abort_wire_bytes(), b"**\x18B070000000067d4\r\n\x11".to_vec());
    let failed = fail_state(DownloadProgress::new().state, "boom".to_string());
    assert_eq!(failed.phase, ZmodemTransferPhase::Failed);
    assert_eq!(failed.headline, "Download failed");
    assert_eq!(failed.error_text, "boom");
    assert_eq!(failed.title, "ZMODEM Download");
    assert!(transfer_was_active(false, &Some(UploadProgress::new().state().clone())));
    assert!(!transfer_was_active(false, &Some(failed)));
    assert!(transfer_was_active(true, &None));
    assert!(!transfer_was_active(false, &None));
}

fn queued_offer() -> FileStart {
    FileStart { name: b"queued.bin".to_vec(), size: Some(123) }
}

fn pending_receiver() -> DownloadProgress {
    let mut transfer = DownloadProgress::new();
    assert_eq!(transfer.before_poll(), DownloadStep::Poll);
    assert_eq!(transfer.route_file_start(queued_offer()), FileStartRoute::Deferred);
    transfer
}

#[test]
fn sender_session_completed_waits_for_final_wire_drain() {
    let mut transfer = UploadProgress::new();
    transfer.session_completed();
    assert!(!transfer.is_finished());
    assert_ne!(
        transfer.state().phase,
        ZmodemTransferPhase::Completed,
        "upload completion must wait until final wire bytes are drained"
    );
    assert!(transfer.went_idle());
    assert!(transfer.is_finished());
    assert_eq!(transfer.state().phase, ZmodemTransferPhase::Completed);
}

#[test]
fn receiver_session_completed_waits_for_final_wire_drain() {
    let mut transfer = DownloadProgress::new();
    transfer.session_completed();
    assert!(!transfer.finished);
    assert!(transfer.session_complete_pending);
    assert_ne!(
        transfer.state.phase,
        ZmodemTransferPhase::Completed,
        "download completion must wait until final wire bytes are drained"
    );
    assert!(transfer.went_idle());
    assert!(transfer.finished);
    assert_eq!(transfer.state.phase, ZmodemTransferPhase::Completed);
}

#[test]
fn receiver_waits_for_directory_before_consuming_file_offer() {
    let mut transfer = pending_receiver();
    assert_eq!(transfer.before_poll(), DownloadStep::Idle);
    assert_eq!(transfer.state.phase, ZmodemTransferPhase::AwaitingDownloadDirectory);
    assert!(!transfer.finished);
    assert_eq!(transfer.deferred_file_start, Some(queued_offer()));
}

#[test]
fn receiver_resumes_pending_file_offer_after_directory_selection() {
    let mut transfer = pending_receiver();
    transfer.start("/tmp/mica-term-zmodem".to_string(), ZmodemDownloadConflictPolicy::AutoRename);
    let offer = match transfer.before_poll() {
        DownloadStep::Deferred(offer) => offer,
        other => panic!("unexpected step {other:?}"),
    };
    let target_dir = match transfer.classify_file_start(&offer) {
        Ok(FileStartDecision::Open { target_dir }) => target_dir,
        other => panic!("unexpected decision {other:?}"),
    };
    let path = receiver_candidate_path(target_dir.as_str(), offer.name.as_slice());
    transfer.record_file_opened(offer, path, Some("queued.bin".to_string()));
    assert_eq!(transfer.state.phase, ZmodemTransferPhase::Running);
    assert_eq!(transfer.current_file_name, "queued.bin");
}

#[test]
fn receiver_ignores_duplicate_file_started_for_active_download() {
    let mut transfer = pending_receiver();
    transfer.start("/tmp/d".to_string(), ZmodemDownloadConflictPolicy::Overwrite);
    let offer = match transfer.before_poll() {
        DownloadStep::Deferred(offer) => offer,
        other => panic!("unexpected step {other:?}"),
    };
    transfer.record_file_opened(offer, "/tmp/d/queued.bin".to_string(), Some("queued.bin".to_string()));
    assert_eq!(transfer.files_started, 1);
    let first_target = transfer.current_target_path.clone();

    assert_eq!(transfer.classify_file_start(&queued_offer()), Ok(FileStartDecision::IgnoreDuplicate));
    assert_eq!(
        transfer.files_started, 1,
        "a repeated FileStarted event from zmodem2 must not create a second local target"
    );
    assert_eq!(transfer.current_target_path, first_target);
}

#[test]
fn receiver_ignores_duplicate_file_started_after_file_completed() {
    let mut transfer = DownloadProgress::new();
    transfer.start("/tmp/d".to_string(), ZmodemDownloadConflictPolicy::Overwrite);
    assert_eq!(
        transfer.classify_file_start(&queued_offer()),
        Ok(FileStartDecision::Open { target_dir: "/tmp/d".to_string() })
    );
    transfer.record_file_opened(queued_offer(), "/tmp/d/queued.bin".to_string(), Some("queued.bin".to_string()));
    transfer.file_completed();
    assert_eq!(transfer.classify_file_start(&queued_offer()), Ok(FileStartDecision::IgnoreDuplicate));

    assert_eq!(transfer.files_started, 1);
    assert_eq!(transfer.files_completed, 1);
    assert_eq!(transfer.completed_local_paths.len(), 1);
    assert!(!transfer.file_open);
}

#[test]
fn receiver_overwrite_conflict_reuses_existing_download_path() {
    let candidate = receiver_candidate_path("/tmp/d", b"queued.bin");
    assert_eq!(candidate, "/tmp/d/queued.bin");
    assert_eq!(
        resolve_receiver_target(candidate, true, ZmodemDownloadConflictPolicy::Overwrite),
        ReceiverTarget::Write("/tmp/d/queued.bin".to_string())
    );
}

#[test]
fn receiver_can_cancel_while_waiting_for_directory() {
    let mut transfer = pending_receiver();
    transfer.cancel();
    assert_eq!(transfer.before_poll(), DownloadStep::Idle);
    assert_eq!(transfer.state.phase, ZmodemTransferPhase::Cancelled);
    assert!(transfer.finished);
}
