//! A drag upload sent through `rz` on a channel of its own: what each message
//! of that channel means for the upload, when the chosen files are handed to
//! the transfer, and how the upload is judged once the channel ends.

use vstd::prelude::*;
use crate::format::{dec_digits, dec_string};
use crate::output_pump::ChannelMessage;
use crate::text::{cat, cat3};
use crate::zmodem_model::{ZmodemTransferDirection, ZmodemTransferPhase, ZmodemTransferState};

verus! {

/// How a dedicated upload ended, when it did not fail.
#[derive(Debug, Clone, Copy, PartialEq, Eq, Structural)]
pub enum ExecZmodemUploadOutcome {
    Completed,
    Cancelled,
    RuntimeClosed,
}

/// Why a dedicated upload failed.
#[derive(Debug, Clone, PartialEq, Eq)]
pub enum ExecUploadError {
    /// The server refused to run `rz`.
    Rejected,
    /// `rz` was killed by a signal.
    KilledBySignal { signal_name: String, error_message: String },
    /// The channel ended before any transfer was seen.
    ClosedBeforeStart,
    /// `rz` exited with this status before the upload completed.
    ExitedWithStatus(u32),
    /// The channel ended before the upload completed.
    ClosedBeforeCompletion,
}

impl ExecUploadError {
    pub open spec fn message_spec(&self) -> Seq<char> {
        match self {
            ExecUploadError::Rejected => "remote SSH server rejected the rz exec request"@,
            ExecUploadError::KilledBySignal { signal_name, error_message } =>
                "remote rz exited by signal "@ + signal_name@ + ": "@ + error_message@,
            ExecUploadError::ClosedBeforeStart => "remote rz closed before starting a ZMODEM upload"@,
            ExecUploadError::ExitedWithStatus(status) => "remote rz exited with status "@ + dec_digits(*status as nat),
            ExecUploadError::ClosedBeforeCompletion => "remote rz closed before the ZMODEM upload completed"@,
        }
    }

    pub fn message(&self) -> (r: String)
        ensures
            r@ == self.message_spec(),
    {
        match self {
            ExecUploadError::Rejected => String::from_str("remote SSH server rejected the rz exec request"),
            ExecUploadError::KilledBySignal { signal_name, error_message } => {
                let head = cat3("remote rz exited by signal ", signal_name.as_str(), ": ");
                cat(head.as_str(), error_message.as_str())
            },
            ExecUploadError::ClosedBeforeStart => String::from_str("remote rz closed before starting a ZMODEM upload"),
            ExecUploadError::ExitedWithStatus(status) => {
                let digits = dec_string(*status as u64);
                cat("remote rz exited with status ", digits.as_str())
            },
            ExecUploadError::ClosedBeforeCompletion =>
                String::from_str("remote rz closed before the ZMODEM upload completed"),
        }
    }
}

/// What to do with one message of the upload channel.
#[derive(Debug, Clone, PartialEq, Eq)]
pub enum ExecUploadStep {
    /// Nothing for the transfer; wait for the next message.
    Continue,
    /// Hand these bytes to the transfer.
    Feed(Vec<u8>),
    /// The channel's output ended.
    Stop,
    /// The upload failed.
    Fail(ExecUploadError),
}

/// What the upload channel has said so far.
#[derive(Debug, Clone, Copy, PartialEq, Eq)]
pub struct ExecUploadTracker {
    pub exec_accepted: bool,
    pub exit_status: Option<u32>,
}

impl ExecUploadTracker {
    pub fn new() -> (r: Self)
        ensures
            r == (ExecUploadTracker { exec_accepted: false, exit_status: None }),
    {
        ExecUploadTracker { exec_accepted: false, exit_status: None }
    }

    /// Reads one message: the server's answer to the request, output of
    /// `rz` (standard output only), its exit, or the end of the channel.
    pub fn on_message(&mut self, message: ChannelMessage) -> (r: ExecUploadStep)
        ensures
            match message {
                ChannelMessage::Success => r == ExecUploadStep::Continue
                    && *final(self) == (ExecUploadTracker { exec_accepted: true, ..*old(self) }),
                ChannelMessage::Failure => *final(self) == *old(self) && if old(self).exec_accepted {
                    r == ExecUploadStep::Continue
                } else {
                    r == ExecUploadStep::Fail(ExecUploadError::Rejected)
                },
                ChannelMessage::Data { data } => r == ExecUploadStep::Feed(data) && *final(self) == *old(self),
                ChannelMessage::ExitStatus { exit_status } => r == ExecUploadStep::Continue
                    && *final(self) == (ExecUploadTracker { exit_status: Some(exit_status), ..*old(self) }),
                ChannelMessage::ExitSignal { signal_name, error_message } =>
                    r == ExecUploadStep::Fail(ExecUploadError::KilledBySignal { signal_name, error_message })
                    && *final(self) == *old(self),
                ChannelMessage::Eof => r == ExecUploadStep::Stop && *final(self) == *old(self),
                ChannelMessage::Close => r == ExecUploadStep::Stop && *final(self) == *old(self),
                _ => r == ExecUploadStep::Continue && *final(self) == *old(self),
            },
    {
        match message {
            ChannelMessage::Success => {
                self.exec_accepted = true;
                ExecUploadStep::Continue
            },
            ChannelMessage::Failure => {
                if self.exec_accepted {
                    ExecUploadStep::Continue
                } else {
                    ExecUploadStep::Fail(ExecUploadError::Rejected)
                }
            },
            ChannelMessage::Data { data } => ExecUploadStep::Feed(data),
            ChannelMessage::ExitStatus { exit_status } => {
                self.exit_status = Some(exit_status);
                ExecUploadStep::Continue
            },
            ChannelMessage::ExitSignal { signal_name, error_message } =>
                ExecUploadStep::Fail(ExecUploadError::KilledBySignal { signal_name, error_message }),
            ChannelMessage::Eof | ChannelMessage::Close => ExecUploadStep::Stop,
            _ => ExecUploadStep::Continue,
        }
    }
}

/// The files are handed to the transfer once, as soon as `rz` shows it is
/// waiting for them.
pub fn should_start_exec_upload(upload_started: bool, shown: &Option<ZmodemTransferState>) -> (r: bool)
    ensures
        r == (!upload_started && shown is Some && shown->0.direction == ZmodemTransferDirection::Upload
            && shown->0.phase == ZmodemTransferPhase::AwaitingUploadSelection),
{
    if upload_started {
        return false;
    }
    match shown {
        Some(state) => state.direction == ZmodemTransferDirection::Upload
            && state.phase == ZmodemTransferPhase::AwaitingUploadSelection,
        None => false,
    }
}

/// The upload once its channel ended: it must have started and completed;
/// else the exit status of `rz`, if it came, says why not.
pub fn exec_upload_verdict(shown: &Option<ZmodemTransferState>, exit_status: Option<u32>) -> (r: Result<(), ExecUploadError>)
    ensures
        shown is None ==> r == Err::<(), ExecUploadError>(ExecUploadError::ClosedBeforeStart),
        shown matches Some(s) && s.phase == ZmodemTransferPhase::Completed ==> r is Ok,
        shown matches Some(s) && s.phase != ZmodemTransferPhase::Completed ==> r == Err::<(), ExecUploadError>(
            match exit_status {
                Some(status) => ExecUploadError::ExitedWithStatus(status),
                None => ExecUploadError::ClosedBeforeCompletion,
            },
        ),
{
    match shown {
        None => Err(ExecUploadError::ClosedBeforeStart),
        Some(state) => {
            if state.phase == ZmodemTransferPhase::Completed {
                Ok(())
            } else {
                match exit_status {
                    Some(status) => Err(ExecUploadError::ExitedWithStatus(status)),
                    None => Err(ExecUploadError::ClosedBeforeCompletion),
                }
            }
        },
    }
}

/// What a cancel does, given how far the upload got: a finished transfer is
/// left as it ended; a waiting or running one is cancelled (and the remote
/// side told to abort); before any transfer was seen, the abort is sent
/// directly.
#[derive(Debug, Clone, Copy, PartialEq, Eq, Structural)]
pub enum ExecCancelPlan {
    /// The transfer had completed: the upload counts as completed.
    AlreadyCompleted,
    /// The transfer had failed or been cancelled already.
    AlreadyEnded,
    /// Cancel the running transfer, then send what it queues.
    CancelTransfer,
    /// No transfer yet: send the abort bytes and show the upload cancelled.
    AbortBeforeHandshake,
}

pub fn exec_cancel_plan(shown: &Option<ZmodemTransferState>) -> (r: ExecCancelPlan)
    ensures
        r == (match shown {
            None => ExecCancelPlan::AbortBeforeHandshake,
            Some(s) => match s.phase {
                ZmodemTransferPhase::Completed => ExecCancelPlan::AlreadyCompleted,
                ZmodemTransferPhase::Failed => ExecCancelPlan::AlreadyEnded,
                ZmodemTransferPhase::Cancelled => ExecCancelPlan::AlreadyEnded,
                _ => ExecCancelPlan::CancelTransfer,
            },
        }),
{
    match shown {
        None => ExecCancelPlan::AbortBeforeHandshake,
        Some(state) => match state.phase {
            ZmodemTransferPhase::Completed => ExecCancelPlan::AlreadyCompleted,
            ZmodemTransferPhase::Failed | ZmodemTransferPhase::Cancelled => ExecCancelPlan::AlreadyEnded,
            _ => ExecCancelPlan::CancelTransfer,
        },
    }
}

/// How the dedicated upload ends after a cancel, by plan.
pub fn exec_cancel_outcome(plan: ExecCancelPlan) -> (r: ExecZmodemUploadOutcome)
    ensures
        r == (if plan == ExecCancelPlan::AlreadyCompleted {
            ExecZmodemUploadOutcome::Completed
        } else {
            ExecZmodemUploadOutcome::Cancelled
        }),
{
    match plan {
        ExecCancelPlan::AlreadyCompleted => ExecZmodemUploadOutcome::Completed,
        _ => ExecZmodemUploadOutcome::Cancelled,
    }
}

} // verus!
