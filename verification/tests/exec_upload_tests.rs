use mica_term::exec_upload::{
    exec_cancel_outcome, exec_cancel_plan, exec_upload_verdict, should_start_exec_upload, ExecCancelPlan,
    ExecUploadError, ExecUploadStep, ExecUploadTracker, ExecZmodemUploadOutcome,
};
use mica_term::output_pump::ChannelMessage;
use mica_term::zmodem_model::{ZmodemTransferDirection, ZmodemTransferPhase, ZmodemTransferState};

fn state(direction: ZmodemTransferDirection, phase: ZmodemTransferPhase) -> ZmodemTransferState {
    ZmodemTransferState::new(direction, phase, "t", "h", "s", "d")
}

#[test]
fn exec_channel_messages_drive_the_upload() {
    let mut tracker = ExecUploadTracker::new();
    assert_eq!(tracker.on_message(ChannelMessage::Failure), ExecUploadStep::Fail(ExecUploadError::Rejected));
    assert_eq!(tracker.on_message(ChannelMessage::Success), ExecUploadStep::Continue);
    assert!(tracker.exec_accepted);
    assert_eq!(tracker.on_message(ChannelMessage::Failure), ExecUploadStep::Continue);
    assert_eq!(tracker.on_message(ChannelMessage::Data { data: b"**".to_vec() }), ExecUploadStep::Feed(b"**".to_vec()));
    assert_eq!(
        tracker.on_message(ChannelMessage::ExtendedData { data: b"warn".to_vec(), ext: 1 }),
        ExecUploadStep::Continue
    );
    assert_eq!(tracker.on_message(ChannelMessage::ExitStatus { exit_status: 3 }), ExecUploadStep::Continue);
    assert_eq!(tracker.exit_status, Some(3));
    assert_eq!(tracker.on_message(ChannelMessage::Eof), ExecUploadStep::Stop);
    let killed = tracker.on_message(ChannelMessage::ExitSignal {
        signal_name: "TERM".to_string(),
        error_message: "stopped".to_string(),
    });
    match killed {
        ExecUploadStep::Fail(error) => assert_eq!(error.message(), "remote rz exited by signal TERM: stopped"),
        other => panic!("unexpected step {other:?}"),
    }
}

#[test]
fn files_are_handed_over_once_rz_waits() {
    let waiting = Some(state(ZmodemTransferDirection::Upload, ZmodemTransferPhase::AwaitingUploadSelection));
    assert!(should_start_exec_upload(false, &waiting));
    assert!(!should_start_exec_upload(true, &waiting));
    assert!(!should_start_exec_upload(false, &None));
    let download = Some(state(ZmodemTransferDirection::Download, ZmodemTransferPhase::AwaitingDownloadDirectory));
    assert!(!should_start_exec_upload(false, &download));
}

#[test]
fn upload_is_judged_when_the_channel_ends() {
    assert_eq!(exec_upload_verdict(&None, Some(0)), Err(ExecUploadError::ClosedBeforeStart));
    let done = Some(state(ZmodemTransferDirection::Upload, ZmodemTransferPhase::Completed));
    assert_eq!(exec_upload_verdict(&done, None), Ok(()));
    let running = Some(state(ZmodemTransferDirection::Upload, ZmodemTransferPhase::Running));
    assert_eq!(exec_upload_verdict(&running, Some(2)), Err(ExecUploadError::ExitedWithStatus(2)));
    assert_eq!(ExecUploadError::ExitedWithStatus(2).message(), "remote rz exited with status 2");
    assert_eq!(exec_upload_verdict(&running, None), Err(ExecUploadError::ClosedBeforeCompletion));
}

#[test]
fn cancel_plan_follows_the_transfer_phase() {
    assert_eq!(exec_cancel_plan(&None), ExecCancelPlan::AbortBeforeHandshake);
    let done = Some(state(ZmodemTransferDirection::Upload, ZmodemTransferPhase::Completed));
    assert_eq!(exec_cancel_plan(&done), ExecCancelPlan::AlreadyCompleted);
    assert_eq!(exec_cancel_outcome(ExecCancelPlan::AlreadyCompleted), ExecZmodemUploadOutcome::Completed);
    let failed = Some(state(ZmodemTransferDirection::Upload, ZmodemTransferPhase::Failed));
    assert_eq!(exec_cancel_plan(&failed), ExecCancelPlan::AlreadyEnded);
    let running = Some(state(ZmodemTransferDirection::Upload, ZmodemTransferPhase::Running));
    assert_eq!(exec_cancel_plan(&running), ExecCancelPlan::CancelTransfer);
    assert_eq!(exec_cancel_outcome(ExecCancelPlan::CancelTransfer), ExecZmodemUploadOutcome::Cancelled);
}
