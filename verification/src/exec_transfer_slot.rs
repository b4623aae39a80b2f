//! The one dedicated upload channel a session may run at a time (a drag
//! upload sent through `rz` on a channel of its own).
//!
//! Each registration gets a generation number, never used before, so that a
//! transfer that ends late cannot release the slot of one that started after
//! it, and a cancel reaches the transfer that holds the slot now.

use vstd::prelude::*;

verus! {

/// The slot as values: the last generation handed out, and the generation
/// of the transfer holding the slot, if one does.
pub struct SlotView {
    pub next_generation: nat,
    pub active: Option<u64>,
}

/// Why a transfer could not take the slot.
#[derive(Debug, Clone, Copy, PartialEq, Eq, Structural)]
pub enum SlotRegisterError {
    /// Another transfer holds the slot and can still be told to cancel.
    AlreadyActive,
    /// Every generation number has been used.
    GenerationOverflow,
}

impl SlotRegisterError {
    pub open spec fn message_spec(self) -> Seq<char> {
        match self {
            SlotRegisterError::AlreadyActive => "a dedicated exec zmodem upload is already active"@,
            SlotRegisterError::GenerationOverflow => "exec zmodem generation overflow"@,
        }
    }

    pub fn message(self) -> (r: &'static str)
        ensures
            r@ == self.message_spec(),
    {
        match self {
            SlotRegisterError::AlreadyActive => "a dedicated exec zmodem upload is already active",
            SlotRegisterError::GenerationOverflow => "exec zmodem generation overflow",
        }
    }
}

/// Where a cancel went.
#[derive(Debug, Clone, Copy, PartialEq, Eq, Structural)]
pub enum ExecZmodemCancelRoute {
    /// To the dedicated transfer of this generation.
    Routed(u64),
    /// No dedicated transfer runs: the cancel is for the shell's own transfer.
    NotActive,
}

/// What registering does to `s` when the holder's command channel is
/// `holder_open`: the new slot and the result.
pub open spec fn register_spec(s: SlotView, holder_open: bool) -> (SlotView, Result<u64, SlotRegisterError>) {
    if s.active is Some && holder_open {
        (s, Err(SlotRegisterError::AlreadyActive))
    } else if s.next_generation + 1 > u64::MAX {
        (SlotView { active: None, ..s }, Err(SlotRegisterError::GenerationOverflow))
    } else {
        let g = (s.next_generation + 1) as u64;
        (SlotView { next_generation: g as nat, active: Some(g) }, Ok(g))
    }
}

/// What releasing generation `expected` does to `s`: the slot is freed only
/// when that generation holds it.
pub open spec fn clear_spec(s: SlotView, expected: u64) -> (SlotView, bool) {
    if s.active == Some(expected) {
        (SlotView { active: None, ..s }, true)
    } else {
        (s, false)
    }
}

/// The slot of one session.
#[derive(Debug)]
pub struct ExecZmodemTransferSlot {
    next_generation: u64,
    active: Option<u64>,
}

impl View for ExecZmodemTransferSlot {
    type V = SlotView;

    closed spec fn view(&self) -> SlotView {
        SlotView { next_generation: self.next_generation as nat, active: self.active }
    }
}

impl ExecZmodemTransferSlot {
    /// An empty slot; no generation handed out yet.
    pub fn new() -> (r: Self)
        ensures
            r@ == (SlotView { next_generation: 0, active: None }),
    {
        ExecZmodemTransferSlot { next_generation: 0, active: None }
    }

    /// A new transfer asks for the slot. `holder_open` says whether the
    /// transfer holding it (if any) can still receive commands; one that
    /// cannot is gone and loses the slot.
    pub fn register(&mut self, holder_open: bool) -> (r: Result<u64, SlotRegisterError>)
        ensures
            (final(self)@, r) == register_spec(old(self)@, holder_open),
    {
        if self.active.is_some() && holder_open {
            return Err(SlotRegisterError::AlreadyActive);
        }
        self.active = None;
        if self.next_generation == u64::MAX {
            return Err(SlotRegisterError::GenerationOverflow);
        }
        self.next_generation = self.next_generation + 1;
        let generation = self.next_generation;
        self.active = Some(generation);
        Ok(generation)
    }

    /// The transfer of generation `expected` ended: it frees the slot if it
    /// still holds it. Says whether it did.
    pub fn clear_if_generation(&mut self, expected_generation: u64) -> (r: bool)
        ensures
            (final(self)@, r) == clear_spec(old(self)@, expected_generation),
    {
        let matches = match self.active {
            Some(generation) => generation == expected_generation,
            None => false,
        };
        if matches {
            self.active = None;
        }
        matches
    }

    /// The generation holding the slot.
    pub fn active_generation(&self) -> (r: Option<u64>)
        ensures
            r == self@.active,
    {
        self.active
    }

    /// A cancel was offered to the holder of generation `generation`;
    /// `sent` says whether its command channel took it. A holder that could
    /// not take it is gone: it loses the slot and the cancel goes elsewhere.
    pub fn route_cancel(&mut self, generation: u64, sent: bool) -> (r: ExecZmodemCancelRoute)
        ensures
            sent ==> r == ExecZmodemCancelRoute::Routed(generation) && final(self)@ == old(self)@,
            !sent ==> r == ExecZmodemCancelRoute::NotActive && final(self)@ == clear_spec(old(self)@, generation).0,
    {
        if sent {
            return ExecZmodemCancelRoute::Routed(generation);
        }
        self.clear_if_generation(generation);
        ExecZmodemCancelRoute::NotActive
    }
}

/// Generations only grow: a registration that succeeds hands out a number
/// larger than any handed out before.
pub proof fn lemma_generations_increase(s: SlotView, holder_open: bool)
    ensures
        register_spec(s, holder_open).1 matches Ok(g) ==> g > s.next_generation
            && register_spec(s, holder_open).0.next_generation == g,
        register_spec(s, holder_open).0.next_generation >= s.next_generation,
{
}

/// A transfer that ends after a newer one took the slot leaves the newer
/// one in place.
pub proof fn lemma_stale_release_keeps_newer_holder(s: SlotView, holder_open: bool, stale: u64)
    requires
        stale <= s.next_generation,
        register_spec(s, holder_open).1 is Ok,
    ensures
        ({
            let (after, r) = register_spec(s, holder_open);
            let (cleared, released) = clear_spec(after, stale);
            &&& !released
            &&& cleared == after
            &&& cleared.active == Some(r->Ok_0)
        }),
{
}

} // verus!
