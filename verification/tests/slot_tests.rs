use mica_term::exec_transfer_slot::{ExecZmodemCancelRoute, ExecZmodemTransferSlot, SlotRegisterError};

#[test]
fn registrations_get_increasing_generations() {
    let mut slot = ExecZmodemTransferSlot::new();
    assert_eq!(slot.register(false), Ok(1));
    assert_eq!(slot.active_generation(), Some(1));
    assert_eq!(slot.register(true), Err(SlotRegisterError::AlreadyActive));
    assert_eq!(SlotRegisterError::AlreadyActive.message(), "a dedicated exec zmodem upload is already active");
    // A holder whose channel closed loses the slot to the next transfer.
    assert_eq!(slot.register(false), Ok(2));
    assert_eq!(slot.active_generation(), Some(2));
}

#[test]
fn stale_release_leaves_newer_transfer_in_place() {
    let mut slot = ExecZmodemTransferSlot::new();
    assert_eq!(slot.register(false), Ok(1));
    assert_eq!(slot.register(false), Ok(2));
    assert!(!slot.clear_if_generation(1));
    assert_eq!(slot.active_generation(), Some(2));
    assert!(slot.clear_if_generation(2));
    assert_eq!(slot.active_generation(), None);
    assert!(!slot.clear_if_generation(2));
}

#[test]
fn cancel_goes_to_the_holder_or_frees_a_dead_slot() {
    let mut slot = ExecZmodemTransferSlot::new();
    let generation = slot.register(false).expect("register");
    assert_eq!(slot.route_cancel(generation, true), ExecZmodemCancelRoute::Routed(generation));
    assert_eq!(slot.active_generation(), Some(generation));
    assert_eq!(slot.route_cancel(generation, false), ExecZmodemCancelRoute::NotActive);
    assert_eq!(slot.active_generation(), None);
}

#[test]
fn exec_zmodem_cancel_routes_to_active_generation() {
    let mut slot = ExecZmodemTransferSlot::new();
    let generation = slot.register(false).expect("register exec zmodem transfer");
    let active = slot.active_generation().expect("active generation");
    // The holder's command channel is open, so the cancel is delivered.
    assert_eq!(slot.route_cancel(active, true), ExecZmodemCancelRoute::Routed(generation));
}

#[test]
fn stale_exec_zmodem_registration_cannot_clear_newer_generation() {
    let mut slot = ExecZmodemTransferSlot::new();
    let first = slot.register(false).expect("register first exec zmodem transfer");
    // The first holder's receiver is gone: the cancel cannot be delivered.
    assert_eq!(slot.route_cancel(first, false), ExecZmodemCancelRoute::NotActive);

    let second = slot.register(false).expect("register second exec zmodem transfer");
    assert_ne!(first, second);
    assert!(!slot.clear_if_generation(first));
    assert_eq!(slot.active_generation(), Some(second));
}

#[test]
fn exec_zmodem_slot_rejects_overlapping_live_registration() {
    let mut slot = ExecZmodemTransferSlot::new();
    slot.register(false).expect("register first exec zmodem transfer");
    // The first holder still listens.
    assert!(slot.register(true).is_err());
}

#[test]
fn stale_exec_zmodem_task_guard_cannot_clear_newer_generation() {
    let mut slot = ExecZmodemTransferSlot::new();
    let first = slot.register(false).expect("register first exec zmodem transfer");
    assert!(slot.clear_if_generation(first));
    let second = slot.register(false).expect("register second exec zmodem transfer");

    // The first task's guard releases its generation when it ends.
    slot.clear_if_generation(first);

    assert_eq!(slot.active_generation(), Some(second));
}
