use mica_term::connection_progress::{
    ConnectionHeadlineState, ConnectionProgressEvent, ConnectionProgressReporter, ConnectionStepState,
};
use mica_term::output_pump::{ChannelMessage, RemoteExecError};
use mica_term::remote_probe::{
    channel_request_step, command_exists_from_probe, command_probe_for, first_absolute_line_of, remote_cwd_from_probe,
    ChannelRequestError,
};

#[test]
fn cwd_probe_takes_the_first_absolute_line() {
    assert_eq!(
        remote_cwd_from_probe(Some(0), b"motd line\n  /home/dev/project \r\n/other\n"),
        Ok(Some("/home/dev/project".to_string()))
    );
    assert_eq!(remote_cwd_from_probe(Some(0), b"/srv"), Ok(Some("/srv".to_string())));
    assert_eq!(remote_cwd_from_probe(Some(0), b"relative\n\n"), Ok(None));
    assert_eq!(remote_cwd_from_probe(Some(1), b"/srv\n"), Ok(None));
    let missing = remote_cwd_from_probe(None, b"/srv\n").unwrap_err();
    assert_eq!(missing.message(), "remote cwd probe closed without an exit status");
}

#[test]
fn first_absolute_line_ignores_blank_and_relative_lines() {
    assert_eq!(first_absolute_line_of(""), None);
    assert_eq!(first_absolute_line_of("\n\n  \t/x y\n"), Some("/x y".to_string()));
    assert_eq!(first_absolute_line_of("a/b\nc"), None);
}

#[test]
fn command_probe_requires_a_safe_name_and_reads_the_status() {
    assert!(command_probe_for("rz").is_some());
    assert!(command_probe_for("rz; rm -rf /").is_none());
    assert!(command_probe_for("").is_none());
    assert_eq!(command_exists_from_probe(Some(0)), Ok(true));
    assert_eq!(command_exists_from_probe(Some(127)), Ok(false));
    assert_eq!(
        command_exists_from_probe(None),
        Err(RemoteExecError::MissingExitStatus { request_label: "remote command probe".to_string() })
    );
}

#[test]
fn channel_request_waits_for_an_answer_and_keeps_output() {
    let mut pending = Vec::new();
    assert_eq!(channel_request_step(Some(ChannelMessage::Data { data: b"hi".to_vec() }), "pty", &mut pending), None);
    assert_eq!(
        channel_request_step(Some(ChannelMessage::ExtendedData { data: b"!".to_vec(), ext: 1 }), "pty", &mut pending),
        None
    );
    assert_eq!(channel_request_step(Some(ChannelMessage::Other), "pty", &mut pending), None);
    assert_eq!(channel_request_step(Some(ChannelMessage::Success), "pty", &mut pending), Some(Ok(())));
    assert_eq!(pending, b"hi!".to_vec());

    let rejected = channel_request_step(Some(ChannelMessage::Failure), "shell", &mut pending);
    assert_eq!(rejected, Some(Err(ChannelRequestError::Rejected { request_label: "shell".to_string() })));
    assert_eq!(
        ChannelRequestError::Rejected { request_label: "shell".to_string() }.message(),
        "SSH channel rejected `shell` request"
    );
    let closed = channel_request_step(Some(ChannelMessage::Eof), "shell", &mut pending).unwrap().unwrap_err();
    assert_eq!(closed.message(), "SSH channel closed during `shell` request");
    let ended = channel_request_step(None, "env COLORTERM", &mut pending).unwrap().unwrap_err();
    assert_eq!(ended.message(), "SSH channel closed before `env COLORTERM` completed");
}

#[test]
fn progress_reporter_numbers_steps_and_ends_them() {
    let (mut reporter, started) = ConnectionProgressReporter::new(7, ConnectionHeadlineState::Connecting);
    assert_eq!(started, ConnectionProgressEvent::AttemptStarted { attempt_id: 7, headline: ConnectionHeadlineState::Connecting });
    let (first, shown) =
        reporter.start_step("tcp", "Open TCP".to_string(), "dialing".to_string(), "target".to_string());
    assert_eq!(first.step_id, "00-tcp");
    match shown {
        ConnectionProgressEvent::StepUpdated { attempt_id, step } => {
            assert_eq!(attempt_id, 7);
            assert_eq!(step.step_id, "00-tcp");
            assert_eq!(step.detail, "dialing");
            assert_eq!(step.state, ConnectionStepState::Running);
        }
        other => panic!("unexpected event {other:?}"),
    }
    for _ in 0..9 {
        reporter.start_step("x", String::new(), String::new(), String::new());
    }
    let (eleventh, _) = reporter.start_step("auth", "Auth".to_string(), String::new(), "target".to_string());
    assert_eq!(eleventh.step_id, "10-auth");

    let (updated, diagnostic) = first.fail("refused".to_string());
    match updated {
        ConnectionProgressEvent::StepUpdated { step, .. } => {
            assert_eq!(step.state, ConnectionStepState::Failed);
            assert_eq!(step.detail, "refused");
            assert_eq!(step.title, "Open TCP");
        }
        other => panic!("unexpected event {other:?}"),
    }
    assert_eq!(diagnostic, ConnectionProgressEvent::DiagnosticAppended { attempt_id: 7, message: "refused".to_string() });
    let (blocked, _) = eleventh.block("confirm key".to_string());
    assert!(matches!(blocked, ConnectionProgressEvent::StepUpdated { step, .. } if step.state == ConnectionStepState::Blocked));
    assert_eq!(
        reporter.set_headline(ConnectionHeadlineState::Connected),
        ConnectionProgressEvent::HeadlineChanged { attempt_id: 7, headline: ConnectionHeadlineState::Connected }
    );
}
