//! The record of one connection attempt as the session manager keeps it: the
//! progress events it takes in, how an error or a host key to confirm is
//! shown, and how an attempt is closed.

use vstd::prelude::*;
use crate::connection_progress::{
    ConnectionAttemptState, ConnectionDiagnosticLine, ConnectionHeadlineState, ConnectionHostKeyPrompt,
    ConnectionProgressEvent, ConnectionStepState, ConnectionStepStateItem,
};
use crate::format::{dec_digits, dec_string};
use crate::ids::uuid_new_v4;
use crate::seqs::{first_where, last_where, lemma_first_where_is, lemma_last_where_is};
use crate::session_types::SessionState;
use crate::text::{cat3, same_text};

verus! {

/// The step kind (and identifier) of the host key check.
pub open spec fn host_key_step() -> Seq<char> {
    "verify-host-key"@
}

pub open spec fn has_step_id(id: Seq<char>) -> spec_fn(ConnectionStepStateItem) -> bool {
    |s: ConnectionStepStateItem| s.step_id@ == id
}

pub open spec fn has_step_kind(kind: Seq<char>) -> spec_fn(ConnectionStepStateItem) -> bool {
    |s: ConnectionStepStateItem| s.step_kind@ == kind
}

/// A step still under way: running, or waiting on the user.
pub open spec fn is_open_step() -> spec_fn(ConnectionStepStateItem) -> bool {
    |s: ConnectionStepStateItem| s.state == ConnectionStepState::Running || s.state == ConnectionStepState::Blocked
}

/// `steps` with `step` recorded: it replaces the step with its identifier;
/// a host key step replaces the placeholder host key step; else it is added.
pub open spec fn upserted(steps: Seq<ConnectionStepStateItem>, step: ConnectionStepStateItem) -> Seq<ConnectionStepStateItem> {
    let i = first_where(steps, has_step_id(step.step_id@));
    let h = first_where(steps, has_step_id(host_key_step()));
    if i >= 0 {
        steps.update(i, step)
    } else if h >= 0 && step.step_kind@ == host_key_step() {
        steps.update(h, step)
    } else {
        steps.push(step)
    }
}

fn find_step(steps: &Vec<ConnectionStepStateItem>, id: &str) -> (r: Option<usize>)
    ensures
        match r {
            Some(i) => i == first_where(steps@, has_step_id(id@)) && i < steps@.len(),
            None => first_where(steps@, has_step_id(id@)) == -1,
        },
{
    let mut i: usize = 0;
    while i < steps.len()
        invariant
            i <= steps.len(),
            forall|j: int| 0 <= j < i ==> !has_step_id(id@)(#[trigger] steps@[j]),
        decreases steps.len() - i,
    {
        if same_text(steps[i].step_id.as_str(), id) {
            proof { lemma_first_where_is(steps@, has_step_id(id@), i as int); }
            return Some(i);
        }
        i = i + 1;
    }
    proof { lemma_first_where_is(steps@, has_step_id(id@), -1); }
    None
}

/// Records `step` in `steps` (see `upserted`).
pub fn upsert_connection_step(steps: &mut Vec<ConnectionStepStateItem>, step: ConnectionStepStateItem)
    ensures
        final(steps)@ == upserted(old(steps)@, step),
{
    proof { reveal_strlit("verify-host-key"); }
    match find_step(steps, step.step_id.as_str()) {
        Some(i) => {
            steps.set(i, step);
        },
        None => {
            let is_host_key = same_text(step.step_kind.as_str(), "verify-host-key");
            match find_step(steps, "verify-host-key") {
                Some(h) => {
                    if is_host_key {
                        steps.set(h, step);
                    } else {
                        steps.push(step);
                    }
                },
                None => {
                    steps.push(step);
                },
            }
        },
    }
}

/// The session state a headline puts the session in, and whether it may be
/// reconnected; an error headline leaves the session as it is.
pub open spec fn session_state_for_headline_spec(headline: ConnectionHeadlineState) -> Option<(SessionState, bool)> {
    match headline {
        ConnectionHeadlineState::Connecting => Some((SessionState::Connecting, false)),
        ConnectionHeadlineState::WaitingUser => Some((SessionState::WaitingUser, false)),
        ConnectionHeadlineState::Connected => Some((SessionState::Connected, false)),
        ConnectionHeadlineState::Cancelled => Some((SessionState::Cancelled, true)),
        ConnectionHeadlineState::Error => None,
    }
}

pub fn session_state_for_headline(headline: ConnectionHeadlineState) -> (r: Option<(SessionState, bool)>)
    ensures
        r == session_state_for_headline_spec(headline),
{
    match headline {
        ConnectionHeadlineState::Connecting => Some((SessionState::Connecting, false)),
        ConnectionHeadlineState::WaitingUser => Some((SessionState::WaitingUser, false)),
        ConnectionHeadlineState::Connected => Some((SessionState::Connected, false)),
        ConnectionHeadlineState::Cancelled => Some((SessionState::Cancelled, true)),
        ConnectionHeadlineState::Error => None,
    }
}

/// Takes one progress event into `attempt`. Events of another attempt than
/// the one recorded are ignored, except the start of a new attempt, which
/// replaces the record. Gives the state the session moves to, if any.
pub fn apply_connection_progress_event(attempt: &mut ConnectionAttemptState, event: ConnectionProgressEvent)
    -> (r: Option<(SessionState, bool)>)
    ensures
        match event {
            ConnectionProgressEvent::AttemptStarted { attempt_id, headline } => {
                &&& final(attempt).attempt_id == attempt_id
                &&& final(attempt).headline == headline
                &&& final(attempt).steps@.len() == 0
                &&& final(attempt).diagnostics@.len() == 0
                &&& final(attempt).prompt is None
                &&& r == session_state_for_headline_spec(headline)
            },
            ConnectionProgressEvent::HeadlineChanged { attempt_id, headline } => if old(attempt).attempt_id == attempt_id {
                &&& *final(attempt) == (ConnectionAttemptState { headline, ..*old(attempt) })
                &&& r == session_state_for_headline_spec(headline)
            } else {
                *final(attempt) == *old(attempt) && r is None
            },
            ConnectionProgressEvent::StepUpdated { attempt_id, step } => r is None && if old(attempt).attempt_id == attempt_id {
                &&& final(attempt).steps@ == upserted(old(attempt).steps@, step)
                &&& final(attempt).attempt_id == old(attempt).attempt_id
                &&& final(attempt).headline == old(attempt).headline
                &&& final(attempt).diagnostics == old(attempt).diagnostics
                &&& final(attempt).prompt == old(attempt).prompt
            } else {
                *final(attempt) == *old(attempt)
            },
            ConnectionProgressEvent::DiagnosticAppended { attempt_id, message } => r is None && if old(attempt).attempt_id == attempt_id {
                &&& final(attempt).diagnostics@ == old(attempt).diagnostics@.push(ConnectionDiagnosticLine { attempt_id, message })
                &&& final(attempt).attempt_id == old(attempt).attempt_id
                &&& final(attempt).headline == old(attempt).headline
                &&& final(attempt).steps == old(attempt).steps
                &&& final(attempt).prompt == old(attempt).prompt
            } else {
                *final(attempt) == *old(attempt)
            },
        },
{
    match event {
        ConnectionProgressEvent::AttemptStarted { attempt_id, headline } => {
            *attempt = ConnectionAttemptState::with_attempt_id(attempt_id, headline);
            session_state_for_headline(headline)
        },
        ConnectionProgressEvent::HeadlineChanged { attempt_id, headline } => {
            if attempt.attempt_id == attempt_id {
                attempt.headline = headline;
                session_state_for_headline(headline)
            } else {
                None
            }
        },
        ConnectionProgressEvent::StepUpdated { attempt_id, step } => {
            if attempt.attempt_id == attempt_id {
                upsert_connection_step(&mut attempt.steps, step);
            }
            None
        },
        ConnectionProgressEvent::DiagnosticAppended { attempt_id, message } => {
            if attempt.attempt_id == attempt_id {
                attempt.diagnostics.push(ConnectionDiagnosticLine { attempt_id, message });
            }
            None
        },
    }
}

fn last_open_step(steps: &Vec<ConnectionStepStateItem>) -> (r: Option<usize>)
    ensures
        match r {
            Some(i) => i == last_where(steps@, is_open_step()) && i < steps@.len(),
            None => last_where(steps@, is_open_step()) == -1,
        },
{
    let mut i: usize = steps.len();
    while i > 0
        invariant
            i <= steps.len(),
            forall|j: int| i <= j < steps.len() ==> !is_open_step()(#[trigger] steps@[j]),
        decreases i,
    {
        let k = i - 1;
        let open = match steps[k].state {
            ConnectionStepState::Running | ConnectionStepState::Blocked => true,
            _ => false,
        };
        if open {
            proof { lemma_last_where_is(steps@, is_open_step(), k as int); }
            return Some(k);
        }
        i = k;
    }
    proof { lemma_last_where_is(steps@, is_open_step(), -1); }
    None
}

fn last_step_of_kind(steps: &Vec<ConnectionStepStateItem>, kind: &str) -> (r: Option<usize>)
    ensures
        match r {
            Some(i) => i == last_where(steps@, has_step_kind(kind@)) && i < steps@.len(),
            None => last_where(steps@, has_step_kind(kind@)) == -1,
        },
{
    let mut i: usize = steps.len();
    while i > 0
        invariant
            i <= steps.len(),
            forall|j: int| i <= j < steps.len() ==> !has_step_kind(kind@)(#[trigger] steps@[j]),
        decreases i,
    {
        let k = i - 1;
        if same_text(steps[k].step_kind.as_str(), kind) {
            proof { lemma_last_where_is(steps@, has_step_kind(kind@), k as int); }
            return Some(k);
        }
        i = k;
    }
    proof { lemma_last_where_is(steps@, has_step_kind(kind@), -1); }
    None
}

/// `steps` with the last step under way (if any) ended in `state` with
/// `detail` as what the steps of `after` show.
pub open spec fn last_open_step_ended(
    before: Seq<ConnectionStepStateItem>,
    after: Seq<ConnectionStepStateItem>,
    state: ConnectionStepState,
    detail: Seq<char>,
) -> bool {
    let k = last_where(before, is_open_step());
    &&& after.len() == before.len()
    &&& forall|j: int| 0 <= j < before.len() && j != k ==> after[j] == before[j]
    &&& k >= 0 ==> {
        &&& after[k].state == state
        &&& after[k].detail@ == detail
        &&& after[k].step_id == before[k].step_id
        &&& after[k].step_kind == before[k].step_kind
        &&& after[k].title == before[k].title
        &&& after[k].hop_label == before[k].hop_label
    }
}

fn end_last_open_step(steps: &mut Vec<ConnectionStepStateItem>, state: ConnectionStepState, detail: &String)
    ensures
        last_open_step_ended(old(steps)@, final(steps)@, state, detail@),
{
    match last_open_step(steps) {
        Some(k) => {
            let old_step = &steps[k];
            let updated = ConnectionStepStateItem {
                step_id: old_step.step_id.clone(),
                step_kind: old_step.step_kind.clone(),
                title: old_step.title.clone(),
                detail: detail.clone(),
                hop_label: old_step.hop_label.clone(),
                state,
            };
            steps.set(k, updated);
        },
        None => {},
    }
}

/// `message` is not what the last diagnostic line already says.
pub open spec fn is_new_diagnostic(lines: Seq<ConnectionDiagnosticLine>, message: Seq<char>) -> bool {
    lines.len() == 0 || lines.last().message@ != message
}

fn last_diagnostic_differs(lines: &Vec<ConnectionDiagnosticLine>, message: &str) -> (r: bool)
    ensures
        r == is_new_diagnostic(lines@, message@),
{
    if lines.len() == 0 {
        true
    } else {
        !same_text(lines[lines.len() - 1].message.as_str(), message)
    }
}

/// The attempt failed with `message`: the headline says so, a pending host
/// key question is dropped, the step under way fails with the message, and
/// the message is added to the diagnostics unless it is the last one there.
pub fn project_connection_attempt_error(attempt: &mut ConnectionAttemptState, message: String)
    ensures
        final(attempt).attempt_id == old(attempt).attempt_id,
        final(attempt).headline == ConnectionHeadlineState::Error,
        final(attempt).prompt is None,
        last_open_step_ended(old(attempt).steps@, final(attempt).steps@, ConnectionStepState::Failed, message@),
        final(attempt).diagnostics@ == (if is_new_diagnostic(old(attempt).diagnostics@, message@) {
            old(attempt).diagnostics@.push(ConnectionDiagnosticLine { attempt_id: old(attempt).attempt_id, message })
        } else {
            old(attempt).diagnostics@
        }),
{
    attempt.headline = ConnectionHeadlineState::Error;
    attempt.prompt = None;
    end_last_open_step(&mut attempt.steps, ConnectionStepState::Failed, &message);
    if last_diagnostic_differs(&attempt.diagnostics, message.as_str()) {
        let id = attempt.attempt_id;
        attempt.diagnostics.push(ConnectionDiagnosticLine { attempt_id: id, message });
    }
}

/// Closes the attempt under a fresh identifier (so that late events of the
/// old one are ignored): the headline, the step under way ended in
/// `step_state` with `message`, and `message` added to the diagnostics under
/// the new identifier.
pub fn finalize_connection_attempt(
    attempt: &mut ConnectionAttemptState,
    headline: ConnectionHeadlineState,
    step_state: ConnectionStepState,
    message: String,
)
    ensures
        final(attempt).headline == headline,
        final(attempt).prompt is None,
        last_open_step_ended(old(attempt).steps@, final(attempt).steps@, step_state, message@),
        final(attempt).diagnostics@ == old(attempt).diagnostics@.push(
            ConnectionDiagnosticLine { attempt_id: final(attempt).attempt_id, message },
        ),
{
    let final_attempt_id = uuid_new_v4();
    attempt.attempt_id = final_attempt_id;
    attempt.headline = headline;
    attempt.prompt = None;
    end_last_open_step(&mut attempt.steps, step_state, &message);
    attempt.diagnostics.push(ConnectionDiagnosticLine { attempt_id: final_attempt_id, message });
}

/// What the progress screen says while a host key waits for confirmation.
pub open spec fn host_key_prompt_message(p: ConnectionHostKeyPrompt) -> Seq<char> {
    "Host key verification required for "@ + p.host@ + ":"@ + dec_digits(p.port as nat) + " ("@ + p.fingerprint@ + ")"@
}

/// The steps after the host key step shows `message` as blocked: the last
/// host key step is blocked with it, or a new one is added.
pub open spec fn host_key_step_blocked(
    before: Seq<ConnectionStepStateItem>,
    after: Seq<ConnectionStepStateItem>,
    message: Seq<char>,
) -> bool {
    let k = last_where(before, has_step_kind(host_key_step()));
    if k >= 0 {
        &&& after.len() == before.len()
        &&& forall|j: int| 0 <= j < before.len() && j != k ==> after[j] == before[j]
        &&& after[k].state == ConnectionStepState::Blocked
        &&& after[k].detail@ == message
        &&& after[k].step_id == before[k].step_id
        &&& after[k].step_kind == before[k].step_kind
        &&& after[k].title == before[k].title
        &&& after[k].hop_label == before[k].hop_label
    } else {
        &&& after.len() == before.len() + 1
        &&& after.take(before.len() as int) == before
        &&& after.last().step_id@ == host_key_step()
        &&& after.last().step_kind@ == host_key_step()
        &&& after.last().title@ == "Verify Host Key"@
        &&& after.last().detail@ == message
        &&& after.last().hop_label@ == "Target"@
        &&& after.last().state == ConnectionStepState::Blocked
    }
}

/// The server's host key is unknown: the attempt `attempt_id` (if it is
/// the one recorded) waits for the user to confirm `prompt`. Says whether
/// it did; the session then waits for the user too.
pub fn apply_unknown_host_key_prompt(attempt: &mut ConnectionAttemptState, attempt_id: u128, prompt: ConnectionHostKeyPrompt)
    -> (applied: bool)
    ensures
        applied == (old(attempt).attempt_id == attempt_id),
        !applied ==> *final(attempt) == *old(attempt),
        applied ==> {
            let message = host_key_prompt_message(prompt);
            &&& final(attempt).attempt_id == attempt_id
            &&& final(attempt).headline == ConnectionHeadlineState::WaitingUser
            &&& final(attempt).prompt == Some(prompt)
            &&& host_key_step_blocked(old(attempt).steps@, final(attempt).steps@, message)
            &&& final(attempt).diagnostics@.len() == old(attempt).diagnostics@.len()
                + (if is_new_diagnostic(old(attempt).diagnostics@, message) { 1int } else { 0int })
            &&& final(attempt).diagnostics@.take(old(attempt).diagnostics@.len() as int) == old(attempt).diagnostics@
            &&& is_new_diagnostic(old(attempt).diagnostics@, message) ==> {
                &&& final(attempt).diagnostics@.last().attempt_id == attempt_id
                &&& final(attempt).diagnostics@.last().message@ == message
            }
        },
{
    if attempt.attempt_id != attempt_id {
        return false;
    }
    let port = dec_string(prompt.port as u64);
    let head = cat3("Host key verification required for ", prompt.host.as_str(), ":");
    let mid = cat3(head.as_str(), port.as_str(), " (");
    let message = cat3(mid.as_str(), prompt.fingerprint.as_str(), ")");
    attempt.headline = ConnectionHeadlineState::WaitingUser;
    attempt.prompt = Some(prompt);
    proof {
        reveal_strlit("verify-host-key");
    }
    match last_step_of_kind(&attempt.steps, "verify-host-key") {
        Some(k) => {
            let old_step = &attempt.steps[k];
            let updated = ConnectionStepStateItem {
                step_id: old_step.step_id.clone(),
                step_kind: old_step.step_kind.clone(),
                title: old_step.title.clone(),
                detail: message.clone(),
                hop_label: old_step.hop_label.clone(),
                state: ConnectionStepState::Blocked,
            };
            attempt.steps.set(k, updated);
        },
        None => {
            let ghost before = attempt.steps@;
            attempt.steps.push(ConnectionStepStateItem {
                step_id: String::from_str("verify-host-key"),
                step_kind: String::from_str("verify-host-key"),
                title: String::from_str("Verify Host Key"),
                detail: message.clone(),
                hop_label: String::from_str("Target"),
                state: ConnectionStepState::Blocked,
            });
            assert(attempt.steps@.take(before.len() as int) =~= before);
        },
    }
    let ghost old_lines = attempt.diagnostics@;
    if last_diagnostic_differs(&attempt.diagnostics, message.as_str()) {
        attempt.diagnostics.push(ConnectionDiagnosticLine { attempt_id, message });
        assert(attempt.diagnostics@.take(old_lines.len() as int) =~= old_lines);
    } else {
        assert(attempt.diagnostics@.take(old_lines.len() as int) =~= old_lines);
    }
    true
}

} // verus!
