use mica_term::output_pump::PendingInteractiveZmodemUpload;
use mica_term::output_pump::SynchronizedOutputBatcher;
use mica_term::runtime_events::{closing_events, SessionRuntimeEvent};
use mica_term::zmodem_controller::{
    closing_output, download_on_action, upload_on_action, EngineAction, UploadFollowUp, ZmodemController, ZmodemSession,
    ZmodemStep,
};
use mica_term::zmodem_progress::{DownloadProgress, FileStart, UploadProgress};
use mica_term::zmodem_model::{PostSessionTail, ZmodemTransferDirection, ZmodemTransferPhase};
use mica_term::zmodem_progress::{abort_wire_bytes, UploadFile};

fn initial_header(direction: ZmodemTransferDirection) -> Vec<u8> {
    let wire = match direction {
        ZmodemTransferDirection::Upload => {
            let mut receiver = zmodem2::Receiver::new().expect("create receiver");
            match receiver.poll() {
                zmodem2::Action::WriteWire(bytes) => bytes.to_vec(),
                _ => panic!("unexpected receiver initialization action"),
            }
        }
        ZmodemTransferDirection::Download => {
            let mut sender = zmodem2::Sender::new().expect("create sender");
            match sender.poll() {
                zmodem2::Action::WriteWire(bytes) => bytes.to_vec(),
                _ => panic!("unexpected sender initialization action"),
            }
        }
    };
    assert!(wire.len() >= 18, "initial ZHEX header was too short");
    wire[..18].to_vec()
}

fn completed_sender(pending: &[u8]) -> ZmodemSession {
    let mut session = ZmodemSession::new(ZmodemTransferDirection::Upload).expect("create sender session");
    if let ZmodemSession::Sender { pending_wire, progress, .. } = &mut session {
        progress
            .start(vec![UploadFile { path: "a.bin".into(), display_name: "a.bin".into(), size_bytes: 1 }])
            .expect("start upload");
        progress.session_completed();
        assert!(progress.went_idle());
        assert_eq!(progress.state().phase, ZmodemTransferPhase::Completed);
        pending_wire.extend_from_slice(pending);
    } else {
        panic!("expected a sender session");
    }
    session
}

fn completed_receiver(pending: &[u8]) -> ZmodemSession {
    let mut session = ZmodemSession::new(ZmodemTransferDirection::Download).expect("create receiver session");
    if let ZmodemSession::Receiver { pending_wire, progress, .. } = &mut session {
        progress.finished = true;
        progress.state.phase = ZmodemTransferPhase::Completed;
        pending_wire.extend_from_slice(pending);
    } else {
        panic!("expected a receiver session");
    }
    session
}

#[test]
fn controller_post_session_tail_releases_plain_prompt() {
    let mut controller = ZmodemController {
        post_session_tail: Some(PostSessionTail::new(ZmodemTransferDirection::Download)),
        ..ZmodemController::default()
    };

    assert!(controller.intercept_remote_bytes(b"\r\nO").is_empty());
    assert_eq!(controller.intercept_remote_bytes(b"Oroot@host:~# "), b"root@host:~# ".to_vec());
}

#[test]
fn post_session_upload_prompt_starting_with_oo_is_preserved() {
    let mut controller = ZmodemController {
        post_session_tail: Some(PostSessionTail::new(ZmodemTransferDirection::Upload)),
        ..ZmodemController::default()
    };

    assert_eq!(controller.intercept_remote_bytes(b"OO-service# "), b"OO-service# ".to_vec());
}

#[test]
fn completed_sender_releases_same_chunk_prompt() {
    for prompt in [b"root@host:~# ".as_slice(), b"OO-service# ", b"rz-admin# ", b"* prompt"] {
        let mut pending = b"\r\n".to_vec();
        pending.extend_from_slice(prompt);
        let mut controller =
            ZmodemController { session: Some(completed_sender(pending.as_slice())), ..ZmodemController::default() };

        assert_eq!(controller.advance(), ZmodemStep::Idle);
        assert_eq!(controller.take_released_terminal_bytes(), prompt);
    }
}

#[test]
fn completed_receiver_consumes_only_expected_oo_then_releases_prompt() {
    for prompt in [b"root@host:~# ".as_slice(), b"OO-service# ", b"rz-admin# ", b"* prompt"] {
        let mut pending = b"\r\nOO".to_vec();
        pending.extend_from_slice(prompt);
        let mut controller =
            ZmodemController { session: Some(completed_receiver(pending.as_slice())), ..ZmodemController::default() };

        assert_eq!(controller.advance(), ZmodemStep::Idle);
        assert_eq!(controller.take_released_terminal_bytes(), prompt);
    }
}

#[test]
fn controller_cancel_queues_abort_wire_and_finishes_locally() {
    let mut controller = ZmodemController::default();
    let header = initial_header(ZmodemTransferDirection::Download);

    assert!(controller.intercept_remote_bytes(header.as_slice()).is_empty());
    controller.cancel().expect("cancel zmodem controller");

    let state = controller
        .take_modal_state_change()
        .expect("modal state dirty after cancel")
        .expect("cancelled state");
    assert_eq!(state.phase, ZmodemTransferPhase::Cancelled);

    assert_eq!(controller.advance(), ZmodemStep::WriteWire(abort_wire_bytes()));
    assert_eq!(controller.advance(), ZmodemStep::Idle);
    assert!(controller.dismiss());
}

#[test]
fn controller_dismiss_if_matches_never_clears_different_state() {
    let mut controller = ZmodemController::default();
    let header = initial_header(ZmodemTransferDirection::Download);
    assert!(controller.intercept_remote_bytes(header.as_slice()).is_empty());
    let actual = controller.current_state().expect("current state").clone();
    let mut different = actual.clone();
    different.headline = "Different transfer".into();

    assert!(!controller.dismiss_if_matches(&different));
    assert_eq!(controller.current_state(), Some(&actual));
}

#[test]
fn controller_hands_running_transfer_every_remote_byte() {
    let mut controller = ZmodemController::default();
    let header = initial_header(ZmodemTransferDirection::Download);
    assert_eq!(controller.intercept_remote_bytes(b"$ "), b"$ ".to_vec());
    assert!(controller.intercept_remote_bytes(header.as_slice()).is_empty());
    assert!(controller.session.is_some());
    let state = controller.current_state().expect("dialog shown");
    assert_eq!(state.phase, ZmodemTransferPhase::AwaitingDownloadDirectory);
    assert!(controller.intercept_remote_bytes(b"not for the terminal").is_empty());
    assert!(controller.cancel().is_ok());
    assert!(controller.cancel().is_err());
    assert_eq!(controller.cancel().unwrap_err().message(), "no active zmodem transfer");
}

#[test]
fn controller_dismiss_refuses_while_transfer_runs() {
    let mut controller = ZmodemController::default();
    assert!(!controller.dismiss());
    let header = initial_header(ZmodemTransferDirection::Upload);
    assert!(controller.intercept_remote_bytes(header.as_slice()).is_empty());
    assert!(!controller.dismiss());
    let shown = controller.current_state().expect("dialog shown").clone();
    assert_eq!(shown.phase, ZmodemTransferPhase::AwaitingUploadSelection);
    assert!(!controller.dismiss_if_matches(&shown));
    controller.mark_transport_closed();
    let failed = controller.current_state().expect("failed dialog").clone();
    assert_eq!(failed.phase, ZmodemTransferPhase::Failed);
    assert_eq!(failed.error_text, "The SSH channel closed before the ZMODEM transfer finished.");
    assert!(controller.dismiss_if_matches(&failed));
    assert!(controller.current_state().is_none());
}

#[test]
fn typed_input_gives_up_a_pending_interactive_upload() {
    let mut controller = ZmodemController::default();
    let mut pending: Option<PendingInteractiveZmodemUpload> = None;
    assert!(controller.begin_interactive_upload(&mut pending, vec![], 5).is_err());
    assert!(pending.is_none());
    let command = controller.begin_interactive_upload(&mut pending, vec!["/tmp/a.bin".into()], 5).expect("command");
    assert!(!command.is_empty());
    assert_eq!(pending.as_ref().map(|p| p.started_at), Some(5));
    controller.note_typed_input(&mut pending);
    assert!(pending.is_none());
}

#[test]
fn transport_close_releases_held_bytes_and_fails_running_transfer() {
    let mut controller = ZmodemController::default();
    assert_eq!(controller.intercept_remote_bytes(b"abc**\x18B0"), b"abc**".to_vec());
    let trailing = controller.transport_closed();
    assert_eq!(trailing, b"\x18B0".to_vec());

    let mut controller = ZmodemController::default();
    let header = initial_header(ZmodemTransferDirection::Download);
    assert!(controller.intercept_remote_bytes(header.as_slice()).is_empty());
    assert!(controller.transport_closed().is_empty());
    assert!(controller.session.is_none());
    assert_eq!(controller.current_state().expect("failed dialog").phase, ZmodemTransferPhase::Failed);
}

#[test]
fn upload_start_and_early_end_of_file() {
    let mut controller = ZmodemController::default();
    assert_eq!(controller.start_upload(vec![]).unwrap_err(), "zmodem upload is not pending");
    let header = initial_header(ZmodemTransferDirection::Upload);
    assert!(controller.intercept_remote_bytes(header.as_slice()).is_empty());
    assert_eq!(controller.start_upload(vec![]).unwrap_err(), "no files were selected");
    assert_eq!(controller.start_download("/tmp".into(), mica_term::zmodem_model::ZmodemDownloadConflictPolicy::AutoRename).unwrap_err(), "zmodem download is not pending");
    let file = UploadFile { path: "/tmp/a.bin".into(), display_name: "a.bin".into(), size_bytes: 3 };
    assert_eq!(controller.start_upload(vec![file]).expect("first file"), "/tmp/a.bin");
    controller.upload_file_opened(mica_term::zmodem_progress::UploadStatus::Preparing);
    controller.file_data_read(0, b"");
    assert!(controller.session.is_none());
    let state = controller.current_state().expect("failed dialog");
    assert_eq!(state.phase, ZmodemTransferPhase::Failed);
    assert_eq!(state.error_text, "ZMODEM transfer failed: unexpected end of local file `a.bin`");
}

#[test]
fn pending_interactive_upload_waits_for_the_upload_dialog() {
    let mut controller = ZmodemController::default();
    let mut pending = Some(PendingInteractiveZmodemUpload::new(vec!["/tmp/a.bin".into()], 1));
    assert!(controller.take_pending_upload_paths(&mut pending).is_none());
    assert!(pending.is_some());
    let header = initial_header(ZmodemTransferDirection::Download);
    assert!(controller.intercept_remote_bytes(header.as_slice()).is_empty());
    assert!(controller.take_pending_upload_paths(&mut pending).is_none());

    let mut controller = ZmodemController::default();
    let header = initial_header(ZmodemTransferDirection::Upload);
    assert!(controller.intercept_remote_bytes(header.as_slice()).is_empty());
    assert_eq!(controller.take_pending_upload_paths(&mut pending), Some(vec!["/tmp/a.bin".to_string()]));
    assert!(pending.is_none());
}

#[test]
fn upload_takes_engine_actions_in_turn() {
    let mut progress = UploadProgress::new();
    progress
        .start(vec![
            UploadFile { path: "/tmp/a".into(), display_name: "a".into(), size_bytes: 2 },
            UploadFile { path: "/tmp/b".into(), display_name: "b".into(), size_bytes: 3 },
        ])
        .expect("start");
    assert_eq!(
        upload_on_action(&mut progress, EngineAction::WriteWire(vec![1, 2])),
        UploadFollowUp::Step(ZmodemStep::WriteWire(vec![1, 2]))
    );
    assert_eq!(
        upload_on_action(&mut progress, EngineAction::ReadFile { offset: 5, max_len: 0 }),
        UploadFollowUp::Step(ZmodemStep::ReadFile { offset: 5, max_len: 1 })
    );
    assert_eq!(upload_on_action(&mut progress, EngineAction::FileCompleted), UploadFollowUp::StartNextFile);
    assert_eq!(upload_on_action(&mut progress, EngineAction::FileCompleted), UploadFollowUp::Finish);
    assert_eq!(upload_on_action(&mut progress, EngineAction::SessionCompleted), UploadFollowUp::Step(ZmodemStep::Continue));
    assert!(!progress.is_finished());
    assert_eq!(upload_on_action(&mut progress, EngineAction::Idle), UploadFollowUp::Step(ZmodemStep::Idle));
    assert!(progress.is_finished());
    assert_eq!(progress.state().phase, ZmodemTransferPhase::Completed);
}

#[test]
fn download_takes_engine_actions_in_turn() {
    let mut progress = DownloadProgress::new();
    assert_eq!(
        download_on_action(&mut progress, EngineAction::WriteFile(vec![1])),
        Err("zmodem receiver requested file writes without a file".to_string())
    );
    assert_eq!(
        download_on_action(&mut progress, EngineAction::FileStarted { name: b"a.txt".to_vec(), size: Some(3) }),
        Ok(ZmodemStep::Idle)
    );
    assert_eq!(progress.deferred_file_start, Some(FileStart { name: b"a.txt".to_vec(), size: Some(3) }));
    progress.start("/tmp/in".into(), mica_term::zmodem_model::ZmodemDownloadConflictPolicy::Overwrite);
    match download_on_action(&mut progress, EngineAction::FileStarted { name: b"b.txt".to_vec(), size: None }) {
        Ok(ZmodemStep::OpenDownloadFile { start, candidate, .. }) => {
            assert_eq!(start.name, b"b.txt".to_vec());
            assert!(candidate.ends_with("b.txt"));
        }
        other => panic!("unexpected step {other:?}"),
    }
    assert_eq!(download_on_action(&mut progress, EngineAction::Aborted), Ok(ZmodemStep::Continue));
    assert!(progress.finished);
    assert_eq!(progress.state.phase, ZmodemTransferPhase::Cancelled);
}

#[test]
fn closing_flushes_batched_output_and_ends_with_the_right_event() {
    let mut batcher = SynchronizedOutputBatcher::new();
    let mut controller = ZmodemController::default();
    assert!(closing_output(&mut batcher, &mut controller).is_empty());
    assert_eq!(closing_events(false, false), vec![SessionRuntimeEvent::Disconnected]);
    assert_eq!(
        closing_events(true, true),
        vec![SessionRuntimeEvent::SurfaceDirty, SessionRuntimeEvent::Error("remote SSH channel reported failure".into())]
    );
}
