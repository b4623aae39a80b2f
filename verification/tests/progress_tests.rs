use mica_term::connection_progress::{
    jump_hop, slugify, step, ConnectionAttemptState, ConnectionHeadlineState, ConnectionHopKind,
    ConnectionHopVisualState, ConnectionPreviewState, ConnectionStepState, ConnectionVisualState,
};

#[test]
fn parses_all_preview_states() {
    let states = [
        "verifying_host_key_direct",
        "verifying_host_key_with_jump_host",
        "connecting_trusted_direct",
        "connecting_trusted_with_jump_host",
        "host_key_changed_warning",
        "failed_jump_host",
    ];
    for state in states {
        assert!(ConnectionPreviewState::parse(state).is_some(), "preview state `{state}` should parse");
    }
}

#[test]
fn preview_state_names_round_trip() {
    let all = [
        ConnectionPreviewState::VerifyingHostKeyDirect,
        ConnectionPreviewState::VerifyingHostKeyWithJumpHost,
        ConnectionPreviewState::ConnectingTrustedDirect,
        ConnectionPreviewState::ConnectingTrustedWithJumpHost,
        ConnectionPreviewState::HostKeyChangedWarning,
        ConnectionPreviewState::FailedJumpHost,
    ];
    for state in all {
        assert_eq!(ConnectionPreviewState::parse(state.as_str()), Some(state));
    }
    assert_eq!(ConnectionPreviewState::parse("  failed_jump_host \n"), Some(ConnectionPreviewState::FailedJumpHost));
    assert_eq!(ConnectionPreviewState::parse("unknown"), None);
}

#[test]
fn jump_host_preview_fixture_contains_three_hops() {
    let fixture = ConnectionPreviewState::VerifyingHostKeyWithJumpHost.fixture();
    assert_eq!(fixture.visual_state, ConnectionVisualState::VerifyingHostKey);
    assert_eq!(fixture.hops.len(), 3);
    assert_eq!(fixture.hops[1].label, "Jump Host 1");
    assert_eq!(fixture.hops[2].label, "Target");
}

#[test]
fn warning_preview_fixture_contains_expected_and_current_keys() {
    let fixture = ConnectionPreviewState::HostKeyChangedWarning.fixture();
    assert_eq!(fixture.visual_state, ConnectionVisualState::HostKeyWarning);
    assert!(!fixture.warning_expected.is_empty());
    assert!(!fixture.warning_current.is_empty());
}

#[test]
fn jump_hop_numbers_its_label() {
    let hop = jump_hop(12, "bastion", 2222, ConnectionHopVisualState::Current);
    assert_eq!(hop.label, "Jump Host 12");
    assert_eq!(hop.kind, ConnectionHopKind::JumpHost);
    assert_eq!(hop.host, "bastion");
    assert_eq!(hop.port, 2222);
}

#[test]
fn step_ids_are_slugs_of_hop_and_title() {
    assert_eq!(slugify("Verify Host Key"), "verify-host-key");
    let item = step("running", "Jump Host 1", "Open Tunnel", "detail");
    assert_eq!(item.step_id, "jump-host-1-open-tunnel");
    assert_eq!(item.step_kind, "open-tunnel");
    assert_eq!(item.state, ConnectionStepState::Running);
    assert_eq!(step("whatever", "a", "b", "c").state, ConnectionStepState::Pending);
}

#[test]
fn attempt_state_starts_empty() {
    let attempt = ConnectionAttemptState::with_attempt_id(7, ConnectionHeadlineState::Connecting);
    assert_eq!(attempt.attempt_id, 7);
    assert!(attempt.steps.is_empty());
    assert!(attempt.diagnostics.is_empty());
    assert!(attempt.prompt.is_none());
    let fresh = ConnectionAttemptState::new(ConnectionHeadlineState::Connecting);
    assert_ne!(fresh.attempt_id, 0);
}
