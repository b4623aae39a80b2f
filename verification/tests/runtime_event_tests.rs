use std::collections::VecDeque;

use mica_term::runtime_events::{
    coalesce_surface_backlog, coalesce_surface_dirty_backlog, next_surface_revision, signature_with_revision,
    terminal_surface_stale, SessionRuntimeEvent,
};
use mica_term::terminal_contracts::TerminalSurfaceState;

const SESSION_ID: u128 = 0x1234_5678_9abc_def0_1234_5678_9abc_def0;

#[test]
fn coalesces_consecutive_surface_updates_but_preserves_following_control_events() {
    let initial = TerminalSurfaceState::from_visible_lines(SESSION_ID, 1, 24, 80, vec!["one".into()]);
    let newer = TerminalSurfaceState::from_visible_lines(SESSION_ID, 2, 24, 80, vec!["two".into()]);
    let latest = TerminalSurfaceState::from_visible_lines(SESSION_ID, 3, 24, 80, vec!["three".into()]);
    let backlog = VecDeque::from(vec![
        SessionRuntimeEvent::SurfaceChanged(newer),
        SessionRuntimeEvent::SurfaceChanged(latest.clone()),
        SessionRuntimeEvent::Error("boom".into()),
        SessionRuntimeEvent::Disconnected,
    ]);

    let (coalesced, remaining) = coalesce_surface_backlog(initial, backlog);

    assert_eq!(coalesced, latest);
    assert_eq!(remaining.len(), 2);
    assert!(matches!(remaining.front(), Some(SessionRuntimeEvent::Error(message)) if message == "boom"));
    assert!(matches!(remaining.get(1), Some(SessionRuntimeEvent::Disconnected)));
}

#[test]
fn leaves_non_surface_prefix_events_in_place() {
    let initial = TerminalSurfaceState::from_visible_lines(SESSION_ID, 1, 24, 80, vec!["one".into()]);
    let later = TerminalSurfaceState::from_visible_lines(SESSION_ID, 2, 24, 80, vec!["two".into()]);
    let backlog = VecDeque::from(vec![SessionRuntimeEvent::Connected, SessionRuntimeEvent::SurfaceChanged(later.clone())]);

    let (coalesced, remaining) = coalesce_surface_backlog(initial.clone(), backlog);

    assert_eq!(coalesced, initial);
    assert_eq!(remaining.len(), 2);
    assert!(matches!(remaining.front(), Some(SessionRuntimeEvent::Connected)));
    assert!(matches!(remaining.get(1), Some(SessionRuntimeEvent::SurfaceChanged(surface)) if *surface == later));
}

#[test]
fn coalesces_consecutive_surface_dirty_events_but_preserves_following_control_events() {
    let backlog = VecDeque::from(vec![
        SessionRuntimeEvent::SurfaceDirty,
        SessionRuntimeEvent::SurfaceDirty,
        SessionRuntimeEvent::Error("boom".into()),
        SessionRuntimeEvent::Disconnected,
    ]);

    let remaining = coalesce_surface_dirty_backlog(backlog);

    assert_eq!(remaining.len(), 2);
    assert!(matches!(remaining.front(), Some(SessionRuntimeEvent::Error(message)) if message == "boom"));
    assert!(matches!(remaining.get(1), Some(SessionRuntimeEvent::Disconnected)));
}

#[test]
fn empty_backlog_keeps_the_initial_surface() {
    let initial = TerminalSurfaceState::from_visible_lines(SESSION_ID, 1, 24, 80, vec!["one".into()]);
    let (coalesced, remaining) = coalesce_surface_backlog(initial.clone(), VecDeque::new());
    assert_eq!(coalesced, initial);
    assert!(remaining.is_empty());
    assert!(coalesce_surface_dirty_backlog(VecDeque::from(vec![SessionRuntimeEvent::SurfaceDirty])).is_empty());
}

#[test]
fn surface_dirty_does_not_pull_runtime_snapshot_immediately() {
    let held = TerminalSurfaceState::from_visible_lines(SESSION_ID, 1, 24, 80, vec!["one".into()]);
    let runtime_surface = TerminalSurfaceState::from_visible_lines(SESSION_ID, 2, 24, 80, vec!["two".into()]);

    // A dirty signal only records a newer revision; the surface held stays as it was.
    let recorded = next_surface_revision(None, Some(held.seqno));
    assert_eq!(recorded, 2);
    assert_eq!(held.seqno, 1);
    assert_eq!(held.visible_lines, vec!["one".to_string()]);
    assert_ne!(held.visible_lines, runtime_surface.visible_lines);
}

#[test]
fn surface_dirty_marks_snapshot_stale_until_on_demand_refresh() {
    let held = TerminalSurfaceState::from_visible_lines(SESSION_ID, 1, 24, 80, vec!["one".into()]);
    let runtime_surface = TerminalSurfaceState::from_visible_lines(SESSION_ID, 2, 24, 80, vec!["two".into()]);

    let recorded = Some(next_surface_revision(None, Some(held.seqno)));
    assert!(terminal_surface_stale(recorded, Some(held.seqno), true));
    assert_eq!(signature_with_revision(held.signature(), recorded).seqno, 2);

    // Refreshing takes the runtime's surface, whose number is the revision recorded.
    let refreshed = runtime_surface.clone();
    let recorded = Some(refreshed.seqno);
    assert!(!terminal_surface_stale(recorded, Some(refreshed.seqno), true));
    assert_eq!(refreshed.seqno, runtime_surface.seqno);
    assert_eq!(refreshed.visible_lines, runtime_surface.visible_lines);
}
