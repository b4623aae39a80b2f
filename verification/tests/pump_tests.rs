use mica_term::output_pump::{interactive_upload_timer_fired, start_interactive_upload, InteractiveUploadError};
use mica_term::zmodem_model::ZmodemTransferPhase;
use std::collections::VecDeque;

use mica_term::output_pump::{
    interactive_rz_upload_command, parse_output_chunks, remote_command_probe_command, require_remote_exec_exit_status,
    shell_quote_posix, take_contiguous_output_messages, zmodem_exec_upload_command, ChannelMessage,
    PendingInteractiveZmodemUpload, RemoteExecError, RemoteExecOutput, SurfaceDirtyNotifier,
    SynchronizedOutputBatcher, WorkingSetTrimScheduler, FAST_SURFACE_DIRTY_NOTIFICATION_INTERVAL,
    INPUT_ACTIVE_SURFACE_DIRTY_WINDOW, INTERACTIVE_ZMODEM_UPLOAD_HANDSHAKE_TIMEOUT,
    SURFACE_DIRTY_NOTIFICATION_INTERVAL, WORKING_SET_TRIM_MIN_OUTPUT_BYTES,
};
use mica_term::terminal_contracts::TerminalShellIntegrationState;

fn collect_remote_exec_test_messages(messages: Vec<ChannelMessage>) -> RemoteExecOutput {
    let mut output = RemoteExecOutput::default();
    for message in messages {
        if output.push_message(message, "test remote exec").expect("collect test remote exec message") {
            break;
        }
    }
    output
}

#[test]
fn interactive_rz_fallback_uses_quiet_history_friendly_command() {
    let bytes = interactive_rz_upload_command();
    assert_eq!(bytes, b" rz -q\r".to_vec());
    let command = String::from_utf8_lossy(&bytes);
    assert!(!command.contains("command -v"));
    assert!(!command.contains("if "));
}

#[test]
fn exec_zmodem_upload_uses_quiet_rz() {
    let command = zmodem_exec_upload_command("/srv/releases");
    assert!(command.ends_with("cd '/srv/releases' && rz -q"));
}

#[test]
fn pending_interactive_rz_fallback_times_out_after_handshake_window() {
    let started_at: u64 = 50_000;
    let pending = PendingInteractiveZmodemUpload::new(vec!["release.env".to_string()], started_at);

    assert_eq!(pending.remaining_timeout(started_at + 1000), 3000);
    assert!(!pending.timed_out(started_at + 3000));
    assert!(pending.timed_out(started_at + INTERACTIVE_ZMODEM_UPLOAD_HANDSHAKE_TIMEOUT + 1));
}

#[test]
fn pending_upload_remaining_timeout_is_zero_after_window() {
    let pending = PendingInteractiveZmodemUpload::new(Vec::new(), 100);
    assert_eq!(pending.remaining_timeout(100), INTERACTIVE_ZMODEM_UPLOAD_HANDSHAKE_TIMEOUT);
    assert_eq!(pending.remaining_timeout(100 + INTERACTIVE_ZMODEM_UPLOAD_HANDSHAKE_TIMEOUT), 0);
    assert_eq!(pending.remaining_timeout(50), INTERACTIVE_ZMODEM_UPLOAD_HANDSHAKE_TIMEOUT);
    assert!(pending.timed_out(100 + INTERACTIVE_ZMODEM_UPLOAD_HANDSHAKE_TIMEOUT));
    assert!(!pending.timed_out(99 + INTERACTIVE_ZMODEM_UPLOAD_HANDSHAKE_TIMEOUT));
}

#[test]
fn surface_dirty_notifier_coalesces_repeated_output_until_flush() {
    let mut notifier = SurfaceDirtyNotifier::default();
    let now: u64 = 10_000;

    assert_eq!(notifier.record_output(now), (true, SURFACE_DIRTY_NOTIFICATION_INTERVAL));
    assert_eq!(notifier.record_output(now), (false, SURFACE_DIRTY_NOTIFICATION_INTERVAL));
    assert_eq!(notifier.record_output(now), (false, SURFACE_DIRTY_NOTIFICATION_INTERVAL));
    assert!(notifier.flush_due());
    assert!(!notifier.flush_due());
}

#[test]
fn surface_dirty_notifier_rearms_after_flush() {
    let mut notifier = SurfaceDirtyNotifier::default();
    let now: u64 = 10_000;

    assert_eq!(notifier.record_output(now), (true, SURFACE_DIRTY_NOTIFICATION_INTERVAL));
    assert!(notifier.flush_due());
    assert_eq!(notifier.record_output(now), (true, SURFACE_DIRTY_NOTIFICATION_INTERVAL));
    assert!(notifier.take_pending());
    assert!(!notifier.take_pending());
}

#[test]
fn surface_dirty_notifier_prefers_fast_interval_during_local_input_window() {
    let mut notifier = SurfaceDirtyNotifier::default();
    let now: u64 = 10_000;

    notifier.note_local_input(now);

    assert_eq!(notifier.preferred_interval(now), FAST_SURFACE_DIRTY_NOTIFICATION_INTERVAL);
    assert_eq!(
        notifier.preferred_interval(now + INPUT_ACTIVE_SURFACE_DIRTY_WINDOW + 1),
        SURFACE_DIRTY_NOTIFICATION_INTERVAL
    );
    assert_eq!(notifier.record_output(now), (true, FAST_SURFACE_DIRTY_NOTIFICATION_INTERVAL));
}

#[test]
fn working_set_trim_scheduler_ignores_small_idle_output() {
    let mut scheduler = WorkingSetTrimScheduler::default();
    scheduler.record_output(WORKING_SET_TRIM_MIN_OUTPUT_BYTES / 4);
    assert_eq!(scheduler.take_trim_request_bytes(), None);
    assert_eq!(scheduler.take_trim_request_bytes(), None);
}

#[test]
fn working_set_trim_scheduler_requests_trim_after_large_idle_output() {
    let mut scheduler = WorkingSetTrimScheduler::default();
    scheduler.record_output(WORKING_SET_TRIM_MIN_OUTPUT_BYTES / 2);
    scheduler.record_output(WORKING_SET_TRIM_MIN_OUTPUT_BYTES / 2);
    scheduler.record_output(1);
    assert_eq!(scheduler.take_trim_request_bytes(), Some(WORKING_SET_TRIM_MIN_OUTPUT_BYTES + 1));
    assert_eq!(scheduler.take_trim_request_bytes(), None);
}

#[test]
fn working_set_trim_scheduler_reports_pending_bytes_for_trim_diagnostics() {
    let mut scheduler = WorkingSetTrimScheduler::default();
    scheduler.record_output(WORKING_SET_TRIM_MIN_OUTPUT_BYTES / 2);
    scheduler.record_output(WORKING_SET_TRIM_MIN_OUTPUT_BYTES / 2);
    scheduler.record_output(1);
    assert_eq!(scheduler.take_trim_request_bytes(), Some(WORKING_SET_TRIM_MIN_OUTPUT_BYTES + 1));
    assert_eq!(scheduler.take_trim_request_bytes(), None);
}

#[test]
fn working_set_trim_scheduler_saturates_pending_bytes() {
    let mut scheduler = WorkingSetTrimScheduler::default();
    scheduler.record_output(usize::MAX);
    scheduler.record_output(5);
    assert_eq!(scheduler.take_trim_request_bytes(), Some(usize::MAX));
}

#[test]
fn parse_output_chunks_merges_split_shell_integration_sequences() {
    let parsed = parse_output_chunks(
        TerminalShellIntegrationState::default(),
        &[
            b"\x1b]133;".as_slice(),
            b"B\x07prompt ready".as_slice(),
            b"\x1b]7;file://remote/home/tester\x07".as_slice(),
        ],
    );

    assert_eq!(parsed.sanitized_bytes, b"prompt ready".to_vec());
    assert_eq!(parsed.cwd.as_deref(), Some("/home/tester"));
    assert!(parsed.shell_integration_changed);
    assert!(parsed.next_shell_state.has_markers);
    assert!(parsed.next_shell_state.input_active);
    assert!(!parsed.next_shell_state.command_running);
}

#[test]
fn parse_output_chunks_passes_plain_output_through() {
    let parsed = parse_output_chunks(TerminalShellIntegrationState::default(), &[b"plain ".as_slice(), b"text".as_slice()]);
    assert_eq!(parsed.sanitized_bytes, b"plain text".to_vec());
    assert_eq!(parsed.cwd, None);
    assert!(!parsed.shell_integration_changed);
}

#[test]
fn remote_command_probe_uses_transfer_path_setup() {
    let command = remote_command_probe_command("rz");
    assert!(command.contains("__mica_term_probe_command='rz'"));
    assert!(command.contains("${HOME:+:$HOME/.local/bin:$HOME/bin}"));
    assert!(command.contains("/usr/local/bin"));
    assert!(command.contains("command -v \"$__mica_term_probe_command\""));
}

#[test]
fn shell_quote_escapes_single_quotes() {
    assert_eq!(shell_quote_posix("it's"), "'it'\\''s'");
    assert_eq!(shell_quote_posix(""), "''");
}

#[test]
fn remote_exec_output_completes_when_eof_follows_exit_status() {
    let output = collect_remote_exec_test_messages(vec![
        ChannelMessage::ExitStatus { exit_status: 0 },
        ChannelMessage::Eof,
        ChannelMessage::Close,
    ]);
    assert_eq!(output.exit_status, Some(0));
    assert!(output.saw_eof);
}

#[test]
fn remote_exec_output_waits_for_exit_status_after_eof() {
    let output = collect_remote_exec_test_messages(vec![
        ChannelMessage::Eof,
        ChannelMessage::ExitStatus { exit_status: 0 },
        ChannelMessage::Close,
    ]);
    assert_eq!(output.exit_status, Some(0));
    assert!(output.saw_eof);
}

#[test]
fn remote_exec_output_preserves_data_before_eof_and_late_status() {
    let output = collect_remote_exec_test_messages(vec![
        ChannelMessage::Data { data: b"/srv/b\n".to_vec() },
        ChannelMessage::Eof,
        ChannelMessage::ExitStatus { exit_status: 0 },
        ChannelMessage::Close,
    ]);
    assert_eq!(output.stdout, b"/srv/b\n".to_vec());
    assert_eq!(output.exit_status, Some(0));
}

#[test]
fn remote_exec_output_accepts_close_without_eof() {
    let output = collect_remote_exec_test_messages(vec![
        ChannelMessage::ExitStatus { exit_status: 0 },
        ChannelMessage::Close,
    ]);
    assert_eq!(output.exit_status, Some(0));
    assert!(!output.saw_eof);
}

#[test]
fn remote_exec_output_reports_missing_exit_status_as_incomplete() {
    let output = collect_remote_exec_test_messages(vec![ChannelMessage::Eof, ChannelMessage::Close]);
    let error = require_remote_exec_exit_status(output.exit_status, "test remote exec")
        .expect_err("missing exit status must be incomplete");
    assert!(error.message().contains("without an exit status"));
}

#[test]
fn remote_exec_output_reports_rejected_request() {
    let mut output = RemoteExecOutput::default();
    let error = output.push_message(ChannelMessage::Failure, "probe").expect_err("failure rejects the request");
    assert_eq!(error, RemoteExecError::Rejected { request_label: "probe".to_string() });
    assert_eq!(error.message(), "remote SSH server rejected the probe request");
}

#[test]
fn synchronized_output_batcher_waits_for_sync_end_across_chunks() {
    let mut batcher = SynchronizedOutputBatcher::default();
    let first = batcher.push_bytes(b"prefix\x1b[?2026hframe-1");
    let second = batcher.push_bytes(b"-continued\x1b[?2026l");
    assert_eq!(first, vec![b"prefix".to_vec()]);
    assert_eq!(second, vec![b"\x1b[?2026hframe-1-continued\x1b[?2026l".to_vec()]);
}

#[test]
fn synchronized_output_batcher_finish_releases_open_frame() {
    let mut batcher = SynchronizedOutputBatcher::default();
    let first = batcher.push_bytes(b"\x1b[?2026hhalf");
    assert!(first.is_empty());
    assert_eq!(batcher.finish(), Some(b"\x1b[?2026hhalf".to_vec()));
    assert_eq!(batcher.finish(), None);
}

#[test]
fn collect_output_batch_keeps_output_chunks_until_first_control_message() {
    let mut backlog = VecDeque::from(vec![
        ChannelMessage::ExtendedData { data: b" stderr".to_vec(), ext: 1 },
        ChannelMessage::Close,
    ]);
    let batch = take_contiguous_output_messages(ChannelMessage::Data { data: b"stdout".to_vec() }, &mut backlog);
    assert_eq!(batch.raw_bytes, b"stdout stderr".to_vec());
    assert_eq!(batch.chunk_count, 2);
    assert!(matches!(backlog.front(), Some(ChannelMessage::Close)));
}

#[test]
fn interactive_upload_needs_files_and_times_out() {
    let mut pending = None;
    assert_eq!(start_interactive_upload(&mut pending, Vec::new(), 5), Err(InteractiveUploadError::NoFiles));
    assert!(pending.is_none());
    assert_eq!(InteractiveUploadError::NoFiles.message(), "zmodem upload requires at least one local file");
    assert_eq!(start_interactive_upload(&mut pending, vec!["a.bin".into()], 100), Ok(b" rz -q\r".to_vec()));
    assert_eq!(interactive_upload_timer_fired(&mut pending, 100 + INTERACTIVE_ZMODEM_UPLOAD_HANDSHAKE_TIMEOUT - 1), None);
    assert!(pending.is_some());
    let failed = interactive_upload_timer_fired(&mut pending, 100 + INTERACTIVE_ZMODEM_UPLOAD_HANDSHAKE_TIMEOUT).expect("timed out");
    assert_eq!(failed.phase, ZmodemTransferPhase::Failed);
    assert_eq!(failed.error_text, "remote rz did not emit a ZMODEM upload handshake after the interactive fallback command");
    assert!(pending.is_none());
    assert_eq!(interactive_upload_timer_fired(&mut pending, u64::MAX), None);
}
