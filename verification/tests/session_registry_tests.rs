use mica_term::connection_attempts::{
    apply_connection_progress_event, apply_unknown_host_key_prompt, finalize_connection_attempt,
    project_connection_attempt_error, session_state_for_headline, upsert_connection_step,
};
use mica_term::connection_progress::{
    ConnectionAttemptState, ConnectionDiagnosticLine, ConnectionHeadlineState, ConnectionHostKeyPrompt,
    ConnectionProgressEvent, ConnectionStepState, ConnectionStepStateItem,
};
use mica_term::runtime_events::{
    enhanced_state_to_store, next_surface_revision, signature_with_revision, terminal_surface_stale,
};
use mica_term::session_titles::{next_session_display_title, session_title_slot};
use mica_term::session_types::{EnhancedSessionState, SessionState};
use mica_term::terminal_contracts::TerminalSurfaceState;

fn item(id: &str, kind: &str, state: ConnectionStepState) -> ConnectionStepStateItem {
    ConnectionStepStateItem {
        step_id: id.to_string(),
        step_kind: kind.to_string(),
        title: format!("title {id}"),
        detail: String::new(),
        hop_label: "Target".to_string(),
        state,
    }
}

#[test]
fn steps_are_replaced_by_identifier_or_added() {
    let mut steps = vec![item("00-tcp", "tcp", ConnectionStepState::Running)];
    upsert_connection_step(&mut steps, item("00-tcp", "tcp", ConnectionStepState::Done));
    assert_eq!(steps.len(), 1);
    assert_eq!(steps[0].state, ConnectionStepState::Done);
    upsert_connection_step(&mut steps, item("01-auth", "auth", ConnectionStepState::Running));
    assert_eq!(steps.len(), 2);
    // A real host key step takes the place of the placeholder one.
    steps.push(item("verify-host-key", "verify-host-key", ConnectionStepState::Blocked));
    upsert_connection_step(&mut steps, item("02-verify-host-key", "verify-host-key", ConnectionStepState::Done));
    assert_eq!(steps.len(), 3);
    assert_eq!(steps[2].step_id, "02-verify-host-key");
}

#[test]
fn progress_events_of_the_current_attempt_update_it() {
    let mut attempt = ConnectionAttemptState::with_attempt_id(1, ConnectionHeadlineState::Connecting);
    assert_eq!(
        apply_connection_progress_event(
            &mut attempt,
            ConnectionProgressEvent::AttemptStarted { attempt_id: 2, headline: ConnectionHeadlineState::Connecting }
        ),
        Some((SessionState::Connecting, false))
    );
    assert_eq!(attempt.attempt_id, 2);
    // An event of an older attempt changes nothing.
    assert_eq!(
        apply_connection_progress_event(
            &mut attempt,
            ConnectionProgressEvent::HeadlineChanged { attempt_id: 1, headline: ConnectionHeadlineState::Connected }
        ),
        None
    );
    assert_eq!(attempt.headline, ConnectionHeadlineState::Connecting);
    assert_eq!(
        apply_connection_progress_event(
            &mut attempt,
            ConnectionProgressEvent::HeadlineChanged { attempt_id: 2, headline: ConnectionHeadlineState::Cancelled }
        ),
        Some((SessionState::Cancelled, true))
    );
    apply_connection_progress_event(
        &mut attempt,
        ConnectionProgressEvent::StepUpdated { attempt_id: 2, step: item("00-tcp", "tcp", ConnectionStepState::Running) },
    );
    apply_connection_progress_event(
        &mut attempt,
        ConnectionProgressEvent::DiagnosticAppended { attempt_id: 2, message: "dialing".to_string() },
    );
    assert_eq!(attempt.steps.len(), 1);
    assert_eq!(attempt.diagnostics, vec![ConnectionDiagnosticLine { attempt_id: 2, message: "dialing".to_string() }]);
    assert_eq!(session_state_for_headline(ConnectionHeadlineState::Error), None);
}

#[test]
fn errors_fail_the_step_under_way_once() {
    let mut attempt = ConnectionAttemptState::with_attempt_id(5, ConnectionHeadlineState::Connecting);
    attempt.steps = vec![
        item("00-tcp", "tcp", ConnectionStepState::Done),
        item("01-auth", "auth", ConnectionStepState::Running),
        item("02-x", "x", ConnectionStepState::Pending),
    ];
    project_connection_attempt_error(&mut attempt, "denied".to_string());
    assert_eq!(attempt.headline, ConnectionHeadlineState::Error);
    assert_eq!(attempt.steps[1].state, ConnectionStepState::Failed);
    assert_eq!(attempt.steps[1].detail, "denied");
    assert_eq!(attempt.steps[2].state, ConnectionStepState::Pending);
    project_connection_attempt_error(&mut attempt, "denied".to_string());
    assert_eq!(attempt.diagnostics.len(), 1);
}

#[test]
fn finalized_attempt_gets_a_new_identifier() {
    let mut attempt = ConnectionAttemptState::with_attempt_id(5, ConnectionHeadlineState::Connecting);
    attempt.steps = vec![item("00-tcp", "tcp", ConnectionStepState::Blocked)];
    finalize_connection_attempt(&mut attempt, ConnectionHeadlineState::Cancelled, ConnectionStepState::Cancelled, "stopped".to_string());
    assert_ne!(attempt.attempt_id, 5);
    assert_eq!(attempt.steps[0].state, ConnectionStepState::Cancelled);
    assert_eq!(attempt.diagnostics.last().map(|l| l.attempt_id), Some(attempt.attempt_id));
}

#[test]
fn unknown_host_key_blocks_the_attempt_for_confirmation() {
    let prompt = ConnectionHostKeyPrompt {
        host: "example.com".to_string(),
        port: 22,
        fingerprint: "SHA256:abc".to_string(),
        public_key_openssh: "ssh-ed25519 AAAA".to_string(),
    };
    let mut attempt = ConnectionAttemptState::with_attempt_id(9, ConnectionHeadlineState::Connecting);
    assert!(!apply_unknown_host_key_prompt(&mut attempt, 8, prompt.clone()));
    assert!(attempt.prompt.is_none());
    assert!(apply_unknown_host_key_prompt(&mut attempt, 9, prompt.clone()));
    assert_eq!(attempt.headline, ConnectionHeadlineState::WaitingUser);
    assert_eq!(attempt.prompt, Some(prompt.clone()));
    assert_eq!(attempt.steps.len(), 1);
    assert_eq!(attempt.steps[0].step_id, "verify-host-key");
    assert_eq!(attempt.steps[0].title, "Verify Host Key");
    assert_eq!(attempt.steps[0].detail, "Host key verification required for example.com:22 (SHA256:abc)");
    assert!(apply_unknown_host_key_prompt(&mut attempt, 9, prompt));
    assert_eq!(attempt.steps.len(), 1);
    assert_eq!(attempt.diagnostics.len(), 1);
}

#[test]
fn session_titles_take_the_lowest_free_number() {
    assert_eq!(session_title_slot("prod", "prod"), Some(1));
    assert_eq!(session_title_slot("prod(3)", "prod"), Some(3));
    assert_eq!(session_title_slot("prod(1)", "prod"), None);
    assert_eq!(session_title_slot("prod(x)", "prod"), None);
    assert_eq!(session_title_slot("prod()", "prod"), None);
    assert_eq!(session_title_slot("staging", "prod"), None);

    let none: Vec<(String, String)> = Vec::new();
    assert_eq!(next_session_display_title(&none, "  prod "), "prod");
    assert_eq!(next_session_display_title(&none, "   "), "");
    let open = vec![
        ("prod".to_string(), "prod".to_string()),
        (" prod".to_string(), "prod(3)".to_string()),
        ("other".to_string(), "prod(2)".to_string()),
    ];
    assert_eq!(next_session_display_title(&open, "prod"), "prod(2)");
    let more = vec![
        ("prod".to_string(), "prod".to_string()),
        ("prod".to_string(), "prod(2)".to_string()),
    ];
    assert_eq!(next_session_display_title(&more, "prod"), "prod(3)");
}

#[test]
fn surface_revisions_mark_staleness() {
    assert_eq!(next_surface_revision(None, None), 1);
    assert_eq!(next_surface_revision(None, Some(4)), 5);
    assert_eq!(next_surface_revision(Some(7), Some(4)), 8);
    assert!(terminal_surface_stale(Some(5), Some(4), false));
    assert!(!terminal_surface_stale(Some(4), Some(4), true));
    assert!(terminal_surface_stale(Some(1), None, true));
    assert!(!terminal_surface_stale(Some(1), None, false));
    let surface = TerminalSurfaceState::from_visible_lines(1, 3, 24, 80, vec!["x".into()]);
    assert_eq!(signature_with_revision(surface.signature(), Some(9)).seqno, 9);
    assert_eq!(signature_with_revision(surface.signature(), Some(2)).seqno, 3);
    assert_eq!(enhanced_state_to_store(true, EnhancedSessionState::Enhanced), EnhancedSessionState::Plain);
    assert_eq!(enhanced_state_to_store(false, EnhancedSessionState::Enhanced), EnhancedSessionState::Enhanced);
}
