use std::num::ParseIntError;
use vstd::prelude::*;

use crate::shared::outbox_event::entity::OutboxEventStatusKind;

verus! {

/// The errors of the outbox domain.
#[derive(Debug, Clone, Copy, PartialEq, Eq, Structural)]
pub enum OutboxEventDomainError {
    InvalidStatusTransition(OutboxStatusTransitionError),
}

/// A stored outbox event that cannot be rebuilt.
#[derive(Debug, PartialEq, Eq)]
pub enum OutboxEventReconstructionError {
    /// The stored domain event could not be decoded; the decoder's message.
    DomainEventReconstructionError(String),
    /// The stored trace identifier is not a hexadecimal 128-bit value.
    ParseTraceIdError(ParseIntError),
    /// The stored status names no kind of status.
    InvalidStatus { invalid_status: String },
    FailedButNoNextAttemptAt,
    FailedButNoLastAttemptedAt,
    FailedButNoProcessedAt,
    CompletedButNoLastAttemptedAt,
    CompletedButNoProcessedAt,
    PermanentlyFailedButNoLastAttemptedAt,
    PermanentlyFailedButNoProcessedAt,
}

/// A change of status that a finished event does not allow.
#[derive(Debug, Clone, Copy, PartialEq, Eq, Structural)]
pub enum OutboxStatusTransitionError {
    AlreadyCompleted { to: OutboxEventStatusKind },
    AlreadyPermanentlyFailed { to: OutboxEventStatusKind },
}

impl OutboxStatusTransitionError {
    /// The message shown to clients for this error.
    pub fn message_for_client(&self) -> (r: &'static str)
        ensures
            r@ == match self {
                OutboxStatusTransitionError::AlreadyCompleted { .. } =>
                    "すでに完了済みのイベントのステータス変更は許可されていません"@,
                OutboxStatusTransitionError::AlreadyPermanentlyFailed { .. } =>
                    "恒久的に失敗したイベントのステータス変更は許可されていません"@,
            },
    {
        match self {
            OutboxStatusTransitionError::AlreadyCompleted { .. } => {
                "すでに完了済みのイベントのステータス変更は許可されていません"
            },
            OutboxStatusTransitionError::AlreadyPermanentlyFailed { .. } => {
                "恒久的に失敗したイベントのステータス変更は許可されていません"
            },
        }
    }
}

} // verus!
