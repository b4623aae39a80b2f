//! What a session's runtime reports to the session manager, and how a
//! backlog of such reports is thinned: of consecutive surface updates only
//! the last matters, and consecutive "surface changed" signals are one.

use vstd::prelude::*;
use std::collections::VecDeque;
use crate::connection_progress::ConnectionProgressEvent;
use crate::session_types::EnhancedSessionState;
use crate::terminal_contracts::{TerminalShellIntegrationState, TerminalSurfaceSignature, TerminalSurfaceState};
use crate::zmodem_model::ZmodemTransferState;

verus! {

#[derive(Debug, Clone, PartialEq, Eq)]
pub enum SessionRuntimeEvent {
    Connected,
    ConnectionProgress(ConnectionProgressEvent),
    EnhancedSessionStateChanged(EnhancedSessionState),
    CurrentDirectoryChanged(String),
    ZmodemStateChanged(Option<ZmodemTransferState>),
    ShellIntegrationChanged(TerminalShellIntegrationState),
    SurfaceChanged(TerminalSurfaceState),
    SurfaceDirty,
    Disconnected,
    Error(String),
}

/// How many surface updates open `s`.
pub open spec fn leading_surface_changes(s: Seq<SessionRuntimeEvent>) -> nat
    decreases s.len(),
{
    if s.len() > 0 && s[0] is SurfaceChanged {
        1 + leading_surface_changes(s.drop_first())
    } else {
        0
    }
}

/// How many "surface changed" signals open `s`.
pub open spec fn leading_surface_dirty(s: Seq<SessionRuntimeEvent>) -> nat
    decreases s.len(),
{
    if s.len() > 0 && s[0] is SurfaceDirty {
        1 + leading_surface_dirty(s.drop_first())
    } else {
        0
    }
}

proof fn lemma_leading_bounds(s: Seq<SessionRuntimeEvent>)
    ensures
        leading_surface_changes(s) <= s.len(),
        leading_surface_dirty(s) <= s.len(),
    decreases s.len(),
{
    if s.len() > 0 {
        lemma_leading_bounds(s.drop_first());
    }
}

/// Replaces `initial` by the surface updates that open `backlog`, the last
/// one winning; the rest of the backlog stays, in order.
pub fn coalesce_surface_backlog(initial_surface: TerminalSurfaceState, backlog: VecDeque<SessionRuntimeEvent>)
    -> (r: (TerminalSurfaceState, VecDeque<SessionRuntimeEvent>))
    ensures
        ({
            let k = leading_surface_changes(backlog@);
            &&& r.0 == (if k == 0 { initial_surface } else { backlog@[k - 1]->SurfaceChanged_0 })
            &&& r.1@ == backlog@.skip(k as int)
        }),
{
    let ghost orig = backlog@;
    let mut queue = backlog;
    let mut latest = initial_surface;
    let ghost mut count: nat = 0;
    assert(orig.skip(0) =~= orig);
    proof { lemma_leading_bounds(orig); }
    loop
        invariant
            count <= orig.len(),
            orig == backlog@,
            queue@ == orig.skip(count as int),
            leading_surface_changes(orig) == count + leading_surface_changes(queue@),
            latest == (if count == 0 { initial_surface } else { orig[count - 1]->SurfaceChanged_0 }),
        decreases orig.len() - count,
    {
        let ghost before = queue@;
        match queue.pop_front() {
            Some(SessionRuntimeEvent::SurfaceChanged(surface)) => {
                proof {
                    assert(before[0] == orig[count as int]);
                    assert(before.drop_first() =~= orig.skip((count + 1) as int));
                }
                latest = surface;
                proof { count = count + 1; }
            },
            Some(other) => {
                assert(!(before[0] is SurfaceChanged));
                assert(leading_surface_changes(before) == 0);
                queue.push_front(other);
                assert(queue@ =~= before);
                return (latest, queue);
            },
            None => {
                assert(leading_surface_changes(before) == 0);
                return (latest, queue);
            },
        }
    }
}

/// Drops the "surface changed" signals that open `backlog`.
pub fn coalesce_surface_dirty_backlog(backlog: VecDeque<SessionRuntimeEvent>) -> (r: VecDeque<SessionRuntimeEvent>)
    ensures
        r@ == backlog@.skip(leading_surface_dirty(backlog@) as int),
{
    let ghost orig = backlog@;
    let mut queue = backlog;
    let ghost mut count: nat = 0;
    assert(orig.skip(0) =~= orig);
    proof { lemma_leading_bounds(orig); }
    loop
        invariant
            count <= orig.len(),
            orig == backlog@,
            queue@ == orig.skip(count as int),
            leading_surface_dirty(orig) == count + leading_surface_dirty(queue@),
        decreases orig.len() - count,
    {
        let ghost before = queue@;
        match queue.pop_front() {
            Some(SessionRuntimeEvent::SurfaceDirty) => {
                proof {
                    assert(before.drop_first() =~= orig.skip((count + 1) as int));
                }
                proof { count = count + 1; }
            },
            Some(other) => {
                assert(!(before[0] is SurfaceDirty));
                assert(leading_surface_dirty(before) == 0);
                queue.push_front(other);
                assert(queue@ =~= before);
                return queue;
            },
            None => {
                assert(leading_surface_dirty(before) == 0);
                return queue;
            },
        }
    }
}

// ---------------------------------------------------------------------------
// Surface revisions
// ---------------------------------------------------------------------------

/// The revision a "surface changed" signal records: one past the revision
/// recorded so far, else past the number of the surface held, else 1
/// (never past the largest number).
pub open spec fn next_revision_spec(recorded: Option<usize>, held_seqno: Option<usize>) -> usize {
    let base: usize = match recorded {
        Some(v) => v,
        None => match held_seqno {
            Some(s) => s,
            None => 0,
        },
    };
    if base < usize::MAX { (base + 1) as usize } else { base }
}

pub fn next_surface_revision(recorded: Option<usize>, held_seqno: Option<usize>) -> (r: usize)
    ensures
        r == next_revision_spec(recorded, held_seqno),
{
    let base = match recorded {
        Some(v) => v,
        None => match held_seqno {
            Some(s) => s,
            None => 0,
        },
    };
    if base < usize::MAX { base + 1 } else { base }
}

/// The surface held is older than what the runtime has: its number is below
/// the recorded revision; with no surface held, some change was signalled
/// and a runtime is there to ask.
pub open spec fn stale_spec(recorded: Option<usize>, held_seqno: Option<usize>, has_runtime: bool) -> bool {
    let revision: usize = match recorded {
        Some(v) => v,
        None => 0,
    };
    match held_seqno {
        Some(s) => revision > s,
        None => revision > 0 && has_runtime,
    }
}

pub fn terminal_surface_stale(recorded: Option<usize>, held_seqno: Option<usize>, has_runtime: bool) -> (r: bool)
    ensures
        r == stale_spec(recorded, held_seqno, has_runtime),
{
    let revision = match recorded {
        Some(v) => v,
        None => 0,
    };
    match held_seqno {
        Some(s) => revision > s,
        None => revision > 0 && has_runtime,
    }
}

/// The signature of the surface held, numbered with the recorded revision
/// when that is newer.
pub fn signature_with_revision(signature: TerminalSurfaceSignature, recorded: Option<usize>) -> (r: TerminalSurfaceSignature)
    ensures
        r == (match recorded {
            Some(v) => if v > signature.seqno { TerminalSurfaceSignature { seqno: v, ..signature } } else { signature },
            None => signature,
        }),
{
    let mut signature = signature;
    match recorded {
        Some(v) => {
            if v > signature.seqno {
                signature.seqno = v;
            }
        },
        None => {},
    }
    signature
}

/// The enhancement state a session takes when its runtime reports one:
/// `Plain` for a session whose enhancement the user turned off.
pub fn enhanced_state_to_store(disabled: bool, reported: EnhancedSessionState) -> (r: EnhancedSessionState)
    ensures
        r == (if disabled { EnhancedSessionState::Plain } else { reported }),
{
    if disabled { EnhancedSessionState::Plain } else { reported }
}

/// A "surface changed" signal makes the surface held stale, and taking the
/// runtime's surface (whose number becomes the recorded revision) makes it
/// current again. Revisions recorded are never below the held surface's
/// number; the largest number is left out, as it cannot grow.
pub proof fn lemma_dirty_marks_stale_until_refresh(recorded: Option<usize>, held: usize, has_runtime: bool, refreshed: usize)
    requires
        recorded matches Some(v) ==> v >= held,
        (match recorded {
            Some(v) => v,
            None => held,
        }) < usize::MAX,
    ensures
        stale_spec(Some(next_revision_spec(recorded, Some(held))), Some(held), has_runtime),
        !stale_spec(Some(refreshed), Some(refreshed), has_runtime),
{
}

// ---------------------------------------------------------------------------
// The end of a session
// ---------------------------------------------------------------------------

/// The events that end a session once its channel closed and the last output
/// was shown: a last "surface changed" when one is pending, then
/// `Disconnected`, or the failure the channel reported.
pub fn closing_events(surface_pending: bool, channel_failed: bool) -> (r: Vec<SessionRuntimeEvent>)
    ensures
        r@.len() == (if surface_pending { 2int } else { 1int }),
        surface_pending ==> r@[0] == SessionRuntimeEvent::SurfaceDirty,
        !channel_failed ==> r@.last() == SessionRuntimeEvent::Disconnected,
        channel_failed ==> (r@.last() matches SessionRuntimeEvent::Error(m) && m@ == "remote SSH channel reported failure"@),
{
    let mut r: Vec<SessionRuntimeEvent> = Vec::new();
    if surface_pending {
        r.push(SessionRuntimeEvent::SurfaceDirty);
    }
    if channel_failed {
        r.push(SessionRuntimeEvent::Error(String::from_str("remote SSH channel reported failure")));
    } else {
        r.push(SessionRuntimeEvent::Disconnected);
    }
    r
}

} // verus!
