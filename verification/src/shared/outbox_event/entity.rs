use std::num::ParseIntError;
use vstd::prelude::*;

use crate::entity::EntityTrait;
use vstd::std_specs::cmp::PartialEqSpec;
use crate::shared::domain_event::{DomainEvent, DomainEventView};
use crate::shared::outbox_event::error::{
    OutboxEventDomainError, OutboxEventReconstructionError, OutboxStatusTransitionError,
};
use crate::shared::outbox_event::outbox_event_id::OutboxEventId;
use crate::shared::outbox_event::service::{NextAttemptCalculator, NextAttemptStatus};
use crate::shared::outbox_event::trace::{parse_trace_id_hex, trace_id_from_hex, TraceId};
use crate::shared::random_id::{uuid_variant, uuid_version};
use crate::text::str_eq;
use crate::time::{Clock, UtcDateTime};

verus! {

/// The kinds of status an outbox event can be in, with their stored names.
#[derive(Debug, Clone, Copy, PartialEq, Eq, Structural, Hash)]
pub enum OutboxEventStatusKind {
    Pending,
    Failed,
    Completed,
    PermanentlyFailed,
}

impl OutboxEventStatusKind {
    /// The stored name of the kind.
    pub open spec fn name(self) -> Seq<char> {
        match self {
            OutboxEventStatusKind::Pending => "pending"@,
            OutboxEventStatusKind::Failed => "failed"@,
            OutboxEventStatusKind::Completed => "completed"@,
            OutboxEventStatusKind::PermanentlyFailed => "permanently_failed"@,
        }
    }

    /// The kind whose stored name is `s`, if any.
    pub open spec fn from_name(s: Seq<char>) -> Option<OutboxEventStatusKind> {
        if s == "pending"@ {
            Some(OutboxEventStatusKind::Pending)
        } else if s == "failed"@ {
            Some(OutboxEventStatusKind::Failed)
        } else if s == "completed"@ {
            Some(OutboxEventStatusKind::Completed)
        } else if s == "permanently_failed"@ {
            Some(OutboxEventStatusKind::PermanentlyFailed)
        } else {
            None
        }
    }

    /// Parsing the stored name of a kind gives the kind back.
    pub proof fn lemma_name_round_trip(kind: OutboxEventStatusKind)
        ensures
            OutboxEventStatusKind::from_name(kind.name()) == Some(kind),
    {
        reveal_strlit("pending");
        reveal_strlit("failed");
        reveal_strlit("completed");
        reveal_strlit("permanently_failed");
        assert("pending"@.len() == 7);
        assert("failed"@.len() == 6);
        assert("completed"@.len() == 9);
        assert("permanently_failed"@.len() == 18);
    }

    /// The stored name of the kind.
    pub fn as_str(&self) -> (r: &'static str)
        ensures
            r@ == self.name(),
    {
        match self {
            OutboxEventStatusKind::Pending => "pending",
            OutboxEventStatusKind::Failed => "failed",
            OutboxEventStatusKind::Completed => "completed",
            OutboxEventStatusKind::PermanentlyFailed => "permanently_failed",
        }
    }

    /// The stored name of the kind, as an owned string.
    pub fn to_string(&self) -> (r: String)
        ensures
            r@ == self.name(),
    {
        self.as_str().to_owned()
    }

    /// The kind whose stored name is `s`, if any.
    pub fn parse(s: &str) -> (r: Option<OutboxEventStatusKind>)
        ensures
            r == OutboxEventStatusKind::from_name(s@),
    {
        if str_eq(s, "pending") {
            Some(OutboxEventStatusKind::Pending)
        } else if str_eq(s, "failed") {
            Some(OutboxEventStatusKind::Failed)
        } else if str_eq(s, "completed") {
            Some(OutboxEventStatusKind::Completed)
        } else if str_eq(s, "permanently_failed") {
            Some(OutboxEventStatusKind::PermanentlyFailed)
        } else {
            None
        }
    }
}

/// Where an outbox event stands in its delivery. A pending event was never
/// tried; a failed one waits for another attempt; a completed or permanently
/// failed one is finished. Every attempt counts: the retry count is the number
/// of failed attempts.
#[derive(Debug, Clone, Copy, PartialEq, Eq, Structural)]
pub enum OutboxEventStatus {
    Pending,
    Failed {
        retry_count: u32,
        next_attempt_at: UtcDateTime,
        last_attempted_at: UtcDateTime,
        failed_at: UtcDateTime,
    },
    Completed { retry_count: u32, last_attempted_at: UtcDateTime, completed_at: UtcDateTime },
    PermanentlyFailed { retry_count: u32, last_attempted_at: UtcDateTime, failed_at: UtcDateTime },
}

impl OutboxEventStatus {
    /// The kind of the status.
    pub open spec fn spec_kind(self) -> OutboxEventStatusKind {
        match self {
            OutboxEventStatus::Pending => OutboxEventStatusKind::Pending,
            OutboxEventStatus::Failed { .. } => OutboxEventStatusKind::Failed,
            OutboxEventStatus::Completed { .. } => OutboxEventStatusKind::Completed,
            OutboxEventStatus::PermanentlyFailed { .. } => OutboxEventStatusKind::PermanentlyFailed,
        }
    }

    /// The number of failed attempts (none for a pending event).
    pub open spec fn spec_retry_count(self) -> u32 {
        match self {
            OutboxEventStatus::Pending => 0,
            OutboxEventStatus::Failed { retry_count, .. } => retry_count,
            OutboxEventStatus::Completed { retry_count, .. } => retry_count,
            OutboxEventStatus::PermanentlyFailed { retry_count, .. } => retry_count,
        }
    }

    /// When the next attempt is due, for an event waiting for one.
    pub open spec fn spec_next_attempt_at(self) -> Option<UtcDateTime> {
        match self {
            OutboxEventStatus::Failed { next_attempt_at, .. } => Some(next_attempt_at),
            _ => None,
        }
    }

    /// When the latest attempt started, for an event that was tried.
    pub open spec fn spec_last_attempted_at(self) -> Option<UtcDateTime> {
        match self {
            OutboxEventStatus::Pending => None,
            OutboxEventStatus::Failed { last_attempted_at, .. } => Some(last_attempted_at),
            OutboxEventStatus::Completed { last_attempted_at, .. } => Some(last_attempted_at),
            OutboxEventStatus::PermanentlyFailed { last_attempted_at, .. } => Some(
                last_attempted_at,
            ),
        }
    }

    /// When the latest attempt was settled, for an event that was tried.
    pub open spec fn spec_processed_at(self) -> Option<UtcDateTime> {
        match self {
            OutboxEventStatus::Pending => None,
            OutboxEventStatus::Failed { failed_at, .. } => Some(failed_at),
            OutboxEventStatus::Completed { completed_at, .. } => Some(completed_at),
            OutboxEventStatus::PermanentlyFailed { failed_at, .. } => Some(failed_at),
        }
    }

    /// Whether the event is finished: completed or permanently failed.
    pub open spec fn is_finished(self) -> bool {
        self is Completed || self is PermanentlyFailed
    }

    /// Why a finished event cannot move to the status kind `to`.
    pub open spec fn refusal(self, to: OutboxEventStatusKind) -> OutboxStatusTransitionError {
        if self is Completed {
            OutboxStatusTransitionError::AlreadyCompleted { to }
        } else {
            OutboxStatusTransitionError::AlreadyPermanentlyFailed { to }
        }
    }

    /// The status after a delivery that started at `process_start_at` succeeded
    /// at `now`, or why it cannot change.
    pub open spec fn completed(self, process_start_at: UtcDateTime, now: UtcDateTime) -> Result<
        OutboxEventStatus,
        OutboxStatusTransitionError,
    > {
        if self.is_finished() {
            Err(self.refusal(OutboxEventStatusKind::Completed))
        } else {
            Ok(
                OutboxEventStatus::Completed {
                    retry_count: self.spec_retry_count(),
                    last_attempted_at: process_start_at,
                    completed_at: now,
                },
            )
        }
    }

    /// The status after a delivery that started at `process_start_at` failed at
    /// `now`, with `next` deciding whether it is tried again, or why it cannot
    /// change.
    pub open spec fn failed(
        self,
        process_start_at: UtcDateTime,
        now: UtcDateTime,
        next: NextAttemptStatus,
    ) -> Result<OutboxEventStatus, OutboxStatusTransitionError> {
        if self.is_finished() {
            Err(self.refusal(OutboxEventStatusKind::Failed))
        } else {
            let retry_count = (self.spec_retry_count() + 1) as u32;
            match next {
                NextAttemptStatus::RetryAt(next_attempt_at) => Ok(
                    OutboxEventStatus::Failed {
                        retry_count,
                        next_attempt_at,
                        last_attempted_at: process_start_at,
                        failed_at: now,
                    },
                ),
                NextAttemptStatus::PermanentlyFailed => Ok(
                    OutboxEventStatus::PermanentlyFailed {
                        retry_count,
                        last_attempted_at: process_start_at,
                        failed_at: now,
                    },
                ),
            }
        }
    }

    /// The status stored as a kind, a retry count and three optional times, or
    /// the first time that the kind needs and that is missing. A pending status
    /// needs none and keeps no retry count.
    pub open spec fn from_parts(
        kind: OutboxEventStatusKind,
        retry_count: u32,
        next_attempt_at: Option<UtcDateTime>,
        last_attempted_at: Option<UtcDateTime>,
        processed_at: Option<UtcDateTime>,
    ) -> Result<OutboxEventStatus, OutboxEventReconstructionError> {
        match kind {
            OutboxEventStatusKind::Pending => Ok(OutboxEventStatus::Pending),
            OutboxEventStatusKind::Failed => if next_attempt_at is None {
                Err(OutboxEventReconstructionError::FailedButNoNextAttemptAt)
            } else if last_attempted_at is None {
                Err(OutboxEventReconstructionError::FailedButNoLastAttemptedAt)
            } else if processed_at is None {
                Err(OutboxEventReconstructionError::FailedButNoProcessedAt)
            } else {
                Ok(
                    OutboxEventStatus::Failed {
                        retry_count,
                        next_attempt_at: next_attempt_at.unwrap(),
                        last_attempted_at: last_attempted_at.unwrap(),
                        failed_at: processed_at.unwrap(),
                    },
                )
            },
            OutboxEventStatusKind::Completed => if last_attempted_at is None {
                Err(OutboxEventReconstructionError::CompletedButNoLastAttemptedAt)
            } else if processed_at is None {
                Err(OutboxEventReconstructionError::CompletedButNoProcessedAt)
            } else {
                Ok(
                    OutboxEventStatus::Completed {
                        retry_count,
                        last_attempted_at: last_attempted_at.unwrap(),
                        completed_at: processed_at.unwrap(),
                    },
                )
            },
            OutboxEventStatusKind::PermanentlyFailed => if last_attempted_at is None {
                Err(OutboxEventReconstructionError::PermanentlyFailedButNoLastAttemptedAt)
            } else if processed_at is None {
                Err(OutboxEventReconstructionError::PermanentlyFailedButNoProcessedAt)
            } else {
                Ok(
                    OutboxEventStatus::PermanentlyFailed {
                        retry_count,
                        last_attempted_at: last_attempted_at.unwrap(),
                        failed_at: processed_at.unwrap(),
                    },
                )
            },
        }
    }

    /// The stored name of the status's kind.
    pub fn kind(&self) -> (r: &'static str)
        ensures
            r@ == self.spec_kind().name(),
    {
        self.kind_raw().as_str()
    }

    /// The status's kind.
    pub fn kind_raw(&self) -> (r: OutboxEventStatusKind)
        ensures
            r == self.spec_kind(),
    {
        match self {
            OutboxEventStatus::Pending => OutboxEventStatusKind::Pending,
            OutboxEventStatus::Failed { .. } => OutboxEventStatusKind::Failed,
            OutboxEventStatus::Completed { .. } => OutboxEventStatusKind::Completed,
            OutboxEventStatus::PermanentlyFailed { .. } => OutboxEventStatusKind::PermanentlyFailed,
        }
    }

    /// Rebuilds a stored status. The kind is checked first, then the times that
    /// the kind needs, in the order next attempt, last attempt, processing.
    pub fn try_from(raw: OutboxEventStatusRaw) -> (r: Result<
        OutboxEventStatus,
        OutboxEventReconstructionError,
    >)
        ensures
            OutboxEventStatusKind::from_name(raw.kind@) is None ==> (r matches Err(
                OutboxEventReconstructionError::InvalidStatus { invalid_status },
            ) && invalid_status@ == raw.kind@),
            OutboxEventStatusKind::from_name(raw.kind@) matches Some(kind) ==> r
                == OutboxEventStatus::from_parts(
                kind,
                raw.retry_count,
                raw.next_attempt_at,
                raw.last_attempted_at,
                raw.processed_at,
            ),
    {
        let OutboxEventStatusRaw {
            kind,
            retry_count,
            next_attempt_at,
            last_attempted_at,
            processed_at,
        } = raw;
        let parsed = match OutboxEventStatusKind::parse(kind.as_str()) {
            Some(parsed) => parsed,
            None => {
                return Err(OutboxEventReconstructionError::InvalidStatus { invalid_status: kind });
            },
        };
        match parsed {
            OutboxEventStatusKind::Pending => Ok(OutboxEventStatus::Pending),
            OutboxEventStatusKind::Failed => {
                let next_attempt_at = match next_attempt_at {
                    Some(t) => t,
                    None => {
                        return Err(OutboxEventReconstructionError::FailedButNoNextAttemptAt);
                    },
                };
                let last_attempted_at = match last_attempted_at {
                    Some(t) => t,
                    None => {
                        return Err(OutboxEventReconstructionError::FailedButNoLastAttemptedAt);
                    },
                };
                let failed_at = match processed_at {
                    Some(t) => t,
                    None => {
                        return Err(OutboxEventReconstructionError::FailedButNoProcessedAt);
                    },
                };
                Ok(
                    OutboxEventStatus::Failed {
                        retry_count,
                        next_attempt_at,
                        last_attempted_at,
                        failed_at,
                    },
                )
            },
            OutboxEventStatusKind::Completed => {
                let last_attempted_at = match last_attempted_at {
                    Some(t) => t,
                    None => {
                        return Err(OutboxEventReconstructionError::CompletedButNoLastAttemptedAt);
                    },
                };
                let completed_at = match processed_at {
                    Some(t) => t,
                    None => {
                        return Err(OutboxEventReconstructionError::CompletedButNoProcessedAt);
                    },
                };
                Ok(OutboxEventStatus::Completed { retry_count, last_attempted_at, completed_at })
            },
            OutboxEventStatusKind::PermanentlyFailed => {
                let last_attempted_at = match last_attempted_at {
                    Some(t) => t,
                    None => {
                        return Err(
                            OutboxEventReconstructionError::PermanentlyFailedButNoLastAttemptedAt,
                        );
                    },
                };
                let failed_at = match processed_at {
                    Some(t) => t,
                    None => {
                        return Err(
                            OutboxEventReconstructionError::PermanentlyFailedButNoProcessedAt,
                        );
                    },
                };
                Ok(OutboxEventStatus::PermanentlyFailed { retry_count, last_attempted_at, failed_at })
            },
        }
    }

    /// A finished event stays finished: completing it or failing it again is
    /// refused with the reason of its own kind.
    pub proof fn lemma_finished_stays_finished(
        self,
        process_start_at: UtcDateTime,
        now: UtcDateTime,
        next: NextAttemptStatus,
    )
        requires
            self.is_finished(),
        ensures
            self.completed(process_start_at, now) == Err::<OutboxEventStatus, _>(
                self.refusal(OutboxEventStatusKind::Completed),
            ),
            self.failed(process_start_at, now, next) == Err::<OutboxEventStatus, _>(
                self.refusal(OutboxEventStatusKind::Failed),
            ),
            self is Completed ==> self.refusal(OutboxEventStatusKind::Failed)
                == (OutboxStatusTransitionError::AlreadyCompleted { to: OutboxEventStatusKind::Failed }),
            self is PermanentlyFailed ==> self.refusal(OutboxEventStatusKind::Completed)
                == (OutboxStatusTransitionError::AlreadyPermanentlyFailed {
                to: OutboxEventStatusKind::Completed,
            }),
    {
    }

    /// Every attempt on an unfinished event is recorded: its start and its end
    /// become the latest attempt's; a success finishes the event with the count
    /// of failures kept; a failure counts one failure more, and finishes the
    /// event exactly when no next attempt is given.
    pub proof fn lemma_attempts_are_recorded(
        self,
        process_start_at: UtcDateTime,
        now: UtcDateTime,
        next: NextAttemptStatus,
    )
        requires
            !self.is_finished(),
            self.spec_retry_count() < u32::MAX,
        ensures
            self.completed(process_start_at, now) matches Ok(s) && s is Completed
                && s.spec_retry_count() == self.spec_retry_count() && s.spec_last_attempted_at()
                == Some(process_start_at) && s.spec_processed_at() == Some(now),
            self.failed(process_start_at, now, next) matches Ok(s) && s.spec_retry_count()
                == self.spec_retry_count() + 1 && s.spec_last_attempted_at() == Some(
                process_start_at,
            ) && s.spec_processed_at() == Some(now) && (s.is_finished()
                <==> next is PermanentlyFailed) && s.spec_next_attempt_at() == match next {
                NextAttemptStatus::RetryAt(t) => Some(t),
                NextAttemptStatus::PermanentlyFailed => None,
            },
    {
    }

    /// A status stored by its kind's name, its retry count and its three times
    /// is rebuilt as it was, except that a pending status comes back pending
    /// whatever retry count was stored with it.
    pub proof fn lemma_stored_status_round_trip(status: OutboxEventStatus)
        ensures
            OutboxEventStatusKind::from_name(status.spec_kind().name()) == Some(status.spec_kind()),
            OutboxEventStatus::from_parts(
                status.spec_kind(),
                status.spec_retry_count(),
                status.spec_next_attempt_at(),
                status.spec_last_attempted_at(),
                status.spec_processed_at(),
            ) == Ok::<OutboxEventStatus, OutboxEventReconstructionError>(status),
    {
        OutboxEventStatusKind::lemma_name_round_trip(status.spec_kind());
    }
}

/// An outbox event status as stored: the name of its kind, its retry count and
/// the times that its kind has.
pub struct OutboxEventStatusRaw {
    pub kind: String,
    pub retry_count: u32,
    pub next_attempt_at: Option<UtcDateTime>,
    pub last_attempted_at: Option<UtcDateTime>,
    pub processed_at: Option<UtcDateTime>,
}

/// A domain event waiting in the outbox to be delivered, with the trace it was
/// raised in and where its delivery stands. Two outbox events are the same event
/// when their identifiers are equal.
pub struct OutboxEvent {
    id: OutboxEventId,
    event: DomainEvent,
    status: OutboxEventStatus,
    trace_id: Option<TraceId>,
    created_at: UtcDateTime,
}

/// The model of an [`OutboxEvent`]; the trace is taken by its 128-bit value.
pub struct OutboxEventView {
    pub id: OutboxEventId,
    pub event: DomainEventView,
    pub status: OutboxEventStatus,
    pub trace_id: Option<u128>,
    pub created_at: UtcDateTime,
}

/// The 128-bit value of an optional trace identifier.
pub open spec fn trace_value(trace_id: Option<TraceId>) -> Option<u128> {
    match trace_id {
        Some(t) => Some(t@),
        None => None,
    }
}

impl View for OutboxEvent {
    type V = OutboxEventView;

    closed spec fn view(&self) -> OutboxEventView {
        OutboxEventView {
            id: self.id,
            event: self.event@,
            status: self.status,
            trace_id: trace_value(self.trace_id),
            created_at: self.created_at,
        }
    }
}

impl OutboxEventView {
    /// The same event with the status `status`.
    pub open spec fn with_status(self, status: OutboxEventStatus) -> OutboxEventView {
        OutboxEventView { status, ..self }
    }
}

/// Whether a stored trace identifier, if there is one, is readable.
pub open spec fn stored_trace_id_parses(trace_id: Option<Seq<char>>) -> bool {
    trace_id matches Some(hex) ==> trace_id_from_hex(hex) is Some
}

/// The value of a readable stored trace identifier, if there is one.
pub open spec fn stored_trace_id_value(trace_id: Option<Seq<char>>) -> Option<u128> {
    match trace_id {
        Some(hex) => trace_id_from_hex(hex),
        None => None,
    }
}

/// The text of an optional string.
pub open spec fn optional_text(s: Option<String>) -> Option<Seq<char>> {
    match s {
        Some(s) => Some(s@),
        None => None,
    }
}

impl OutboxEventView {
    /// An outbox event stored as its identifier, its domain event, the parts of
    /// its status, the text of its trace identifier (if it has one) and its time
    /// of creation is rebuilt with the same status and trace identifier; with
    /// the same identifier, domain event and time of creation handed back, it is
    /// rebuilt as it was.
    pub proof fn lemma_stored_event_round_trip(
        self,
        status_source: OutboxEventStatusRaw,
        trace_text: Option<Seq<char>>,
    )
        requires
            status_source.kind@ == self.status.spec_kind().name(),
            status_source.retry_count == self.status.spec_retry_count(),
            status_source.next_attempt_at == self.status.spec_next_attempt_at(),
            status_source.last_attempted_at == self.status.spec_last_attempted_at(),
            status_source.processed_at == self.status.spec_processed_at(),
            trace_text is None <==> self.trace_id is None,
            trace_text matches Some(hex) ==> trace_id_from_hex(hex) == self.trace_id,
        ensures
            OutboxEventStatusKind::from_name(status_source.kind@) == Some(self.status.spec_kind()),
            OutboxEventStatus::from_parts(
                self.status.spec_kind(),
                status_source.retry_count,
                status_source.next_attempt_at,
                status_source.last_attempted_at,
                status_source.processed_at,
            ) == Ok::<OutboxEventStatus, OutboxEventReconstructionError>(self.status),
            stored_trace_id_parses(trace_text),
            stored_trace_id_value(trace_text) == self.trace_id,
    {
        OutboxEventStatus::lemma_stored_status_round_trip(self.status);
    }
}

impl OutboxEvent {
    /// A new pending event, created at `created_at`, with a fresh random
    /// identifier and the trace of the current span, if there is one.
    pub fn new(event: DomainEvent, created_at: UtcDateTime) -> (r: OutboxEvent)
        ensures
            r@.event == event@,
            r@.status == OutboxEventStatus::Pending,
            r@.created_at == created_at,
            uuid_version(r@.id@) == 4,
            uuid_variant(r@.id@) == 2,
            r@.trace_id matches Some(t) ==> t != 0,
    {
        let id = OutboxEventId::new_random();
        let trace_id = TraceId::current();
        OutboxEvent { id, event, status: OutboxEventStatus::Pending, trace_id, created_at }
    }

    /// Rebuilds a stored event from its decoded parts: the domain event as the
    /// decoder gave it (or the decoder's message), the stored status, and the
    /// trace identifier as it was read (if one was stored). The event is checked
    /// first, then the status, then the trace identifier.
    pub fn from_decoded_parts(
        id: OutboxEventId,
        event: Result<DomainEvent, String>,
        status_source: OutboxEventStatusRaw,
        trace_id: Option<Result<u128, ParseIntError>>,
        created_at: UtcDateTime,
    ) -> (r: Result<OutboxEvent, OutboxEventReconstructionError>)
        ensures
            event matches Err(message) ==> (r matches Err(
                OutboxEventReconstructionError::DomainEventReconstructionError(m),
            ) && m@ == message@),
            event is Ok && OutboxEventStatusKind::from_name(status_source.kind@) is None ==> (
            r matches Err(OutboxEventReconstructionError::InvalidStatus { invalid_status })
                && invalid_status@ == status_source.kind@),
            event is Ok ==> (OutboxEventStatusKind::from_name(status_source.kind@) matches Some(kind)
                ==> match OutboxEventStatus::from_parts(
                kind,
                status_source.retry_count,
                status_source.next_attempt_at,
                status_source.last_attempted_at,
                status_source.processed_at,
            ) {
                Err(e) => r matches Err(re) && re == e,
                Ok(status) => match trace_id {
                    Some(Err(e)) => r matches Err(re) && re
                        == OutboxEventReconstructionError::ParseTraceIdError(e),
                    _ => r matches Ok(o) && o@ == (OutboxEventView {
                        id,
                        event: event->Ok_0@,
                        status,
                        trace_id: match trace_id {
                            Some(Ok(v)) => Some(v),
                            _ => None,
                        },
                        created_at,
                    }),
                },
            }),
    {
        let event = match event {
            Ok(event) => event,
            Err(message) => {
                return Err(OutboxEventReconstructionError::DomainEventReconstructionError(message));
            },
        };
        let status = match OutboxEventStatus::try_from(status_source) {
            Ok(status) => status,
            Err(e) => return Err(e),
        };
        let trace_id = match trace_id {
            Some(Ok(value)) => Some(TraceId::from_u128(value)),
            Some(Err(e)) => return Err(OutboxEventReconstructionError::ParseTraceIdError(e)),
            None => None,
        };
        Ok(OutboxEvent { id, event, status, trace_id, created_at })
    }

    /// Rebuilds a stored event: the domain event as the decoder gave it (or the
    /// decoder's message), the stored status, and the stored trace identifier in
    /// hexadecimal, if one was stored. The event is checked first, then the
    /// status, then the trace identifier.
    pub fn reconstruct(
        id: OutboxEventId,
        event: Result<DomainEvent, String>,
        status_source: OutboxEventStatusRaw,
        trace_id: Option<String>,
        created_at: UtcDateTime,
    ) -> (r: Result<OutboxEvent, OutboxEventReconstructionError>)
        ensures
            event matches Err(message) ==> (r matches Err(
                OutboxEventReconstructionError::DomainEventReconstructionError(m),
            ) && m@ == message@),
            event is Ok && OutboxEventStatusKind::from_name(status_source.kind@) is None ==> (
            r matches Err(OutboxEventReconstructionError::InvalidStatus { invalid_status })
                && invalid_status@ == status_source.kind@),
            event is Ok ==> (OutboxEventStatusKind::from_name(status_source.kind@) matches Some(kind)
                ==> match OutboxEventStatus::from_parts(
                kind,
                status_source.retry_count,
                status_source.next_attempt_at,
                status_source.last_attempted_at,
                status_source.processed_at,
            ) {
                Err(e) => r matches Err(re) && re == e,
                Ok(status) => if stored_trace_id_parses(optional_text(trace_id)) {
                    r matches Ok(o) && o@ == (OutboxEventView {
                        id,
                        event: event->Ok_0@,
                        status,
                        trace_id: stored_trace_id_value(optional_text(trace_id)),
                        created_at,
                    })
                } else {
                    r matches Err(OutboxEventReconstructionError::ParseTraceIdError(_))
                },
            }),
    {
        let parsed_trace_id = match &trace_id {
            Some(hex) => Some(parse_trace_id_hex(hex.as_str())),
            None => None,
        };
        OutboxEvent::from_decoded_parts(id, event, status_source, parsed_trace_id, created_at)
    }

    pub fn id(&self) -> (r: OutboxEventId)
        ensures
            r == self@.id,
    {
        self.id
    }

    pub fn domain_event(&self) -> (r: &DomainEvent)
        ensures
            r@ == self@.event,
    {
        &self.event
    }

    pub fn status(&self) -> (r: OutboxEventStatus)
        ensures
            r == self@.status,
    {
        self.status
    }

    pub fn trace_id(&self) -> (r: Option<TraceId>)
        ensures
            trace_value(r) == self@.trace_id,
    {
        self.trace_id
    }

    pub fn created_at(&self) -> (r: UtcDateTime)
        ensures
            r == self@.created_at,
    {
        self.created_at
    }

    /// When the next attempt is due, for an event waiting for one.
    pub fn next_attempt_at(&self) -> (r: Option<UtcDateTime>)
        ensures
            r == self@.status.spec_next_attempt_at(),
    {
        match &self.status {
            OutboxEventStatus::Pending => None,
            OutboxEventStatus::Failed { next_attempt_at, .. } => Some(*next_attempt_at),
            OutboxEventStatus::Completed { .. } => None,
            OutboxEventStatus::PermanentlyFailed { .. } => None,
        }
    }

    /// When the latest attempt started, for an event that was tried.
    pub fn last_attempted_at(&self) -> (r: Option<UtcDateTime>)
        ensures
            r == self@.status.spec_last_attempted_at(),
    {
        match &self.status {
            OutboxEventStatus::Pending => None,
            OutboxEventStatus::Failed { last_attempted_at, .. } => Some(*last_attempted_at),
            OutboxEventStatus::Completed { last_attempted_at, .. } => Some(*last_attempted_at),
            OutboxEventStatus::PermanentlyFailed { last_attempted_at, .. } => Some(
                *last_attempted_at,
            ),
        }
    }

    /// When the latest attempt was settled, for an event that was tried.
    pub fn processed_at(&self) -> (r: Option<UtcDateTime>)
        ensures
            r == self@.status.spec_processed_at(),
    {
        match &self.status {
            OutboxEventStatus::Pending => None,
            OutboxEventStatus::Failed { failed_at, .. } => Some(*failed_at),
            OutboxEventStatus::Completed { completed_at, .. } => Some(*completed_at),
            OutboxEventStatus::PermanentlyFailed { failed_at, .. } => Some(*failed_at),
        }
    }

    /// The number of failed attempts.
    pub fn retry_count(&self) -> (r: u32)
        ensures
            r == self@.status.spec_retry_count(),
    {
        match &self.status {
            OutboxEventStatus::Pending => 0,
            OutboxEventStatus::Failed { retry_count, .. } => *retry_count,
            OutboxEventStatus::Completed { retry_count, .. } => *retry_count,
            OutboxEventStatus::PermanentlyFailed { retry_count, .. } => *retry_count,
        }
    }
}

/// How delivery attempts move an event's status. A finished event refuses
/// every change and stays as it was; otherwise exactly the status changes.
impl OutboxEvent {
    /// Marks the event delivered by the attempt that started at
    /// `process_start_at` and succeeded at `now`.
    pub fn complete_at(&mut self, process_start_at: UtcDateTime, now: UtcDateTime) -> (r: Result<
        (),
        OutboxEventDomainError,
    >)
        ensures
            match old(self)@.status.completed(process_start_at, now) {
                Ok(status) => r is Ok && final(self)@ == old(self)@.with_status(status),
                Err(e) => r == Err::<(), _>(OutboxEventDomainError::InvalidStatusTransition(e))
                    && final(self)@ == old(self)@,
            },
    {
        let retry_count = match &self.status {
            OutboxEventStatus::Pending => 0,
            OutboxEventStatus::Failed { retry_count, .. } => *retry_count,
            OutboxEventStatus::Completed { .. } => {
                return Err(
                    OutboxEventDomainError::InvalidStatusTransition(
                        OutboxStatusTransitionError::AlreadyCompleted {
                            to: OutboxEventStatusKind::Completed,
                        },
                    ),
                );
            },
            OutboxEventStatus::PermanentlyFailed { .. } => {
                return Err(
                    OutboxEventDomainError::InvalidStatusTransition(
                        OutboxStatusTransitionError::AlreadyPermanentlyFailed {
                            to: OutboxEventStatusKind::Completed,
                        },
                    ),
                );
            },
        };
        self.status = OutboxEventStatus::Completed {
            retry_count,
            last_attempted_at: process_start_at,
            completed_at: now,
        };
        Ok(())
    }

    /// Marks the event delivered by the attempt that started at
    /// `process_start_at`, at the time the clock tells. The clock is asked only
    /// when the event can change.
    pub fn complete<C: Clock>(&mut self, process_start_at: UtcDateTime, clock: &C) -> (r: Result<
        (),
        OutboxEventDomainError,
    >)
        ensures
            !old(self)@.status.is_finished() ==> clock.spec_reads(
                final(self)@.status.spec_processed_at().unwrap(),
            ),
            old(self)@.status.is_finished() ==> r == Err::<(), _>(
                OutboxEventDomainError::InvalidStatusTransition(
                    old(self)@.status.refusal(OutboxEventStatusKind::Completed),
                ),
            ) && final(self)@ == old(self)@,
            !old(self)@.status.is_finished() ==> r is Ok && Ok::<OutboxEventStatus, OutboxStatusTransitionError>(final(self)@.status) == old(
                self,
            )@.status.completed(process_start_at, final(self)@.status.spec_processed_at().unwrap())
                && final(self)@ == old(self)@.with_status(final(self)@.status),
    {
        let now = match &self.status {
            OutboxEventStatus::Completed { completed_at, .. } => *completed_at,
            OutboxEventStatus::PermanentlyFailed { failed_at, .. } => *failed_at,
            _ => clock.now(),
        };
        self.complete_at(process_start_at, now)
    }

    /// Records that the attempt that started at `process_start_at` failed at
    /// `now`, with `next` deciding whether the event is tried again. Either way
    /// the failed attempt is counted.
    pub fn handle_failure_at(
        &mut self,
        process_start_at: UtcDateTime,
        now: UtcDateTime,
        next: NextAttemptStatus,
    ) -> (r: Result<(), OutboxEventDomainError>)
        requires
            !old(self)@.status.is_finished() ==> old(self)@.status.spec_retry_count() < u32::MAX,
        ensures
            match old(self)@.status.failed(process_start_at, now, next) {
                Ok(status) => r is Ok && final(self)@ == old(self)@.with_status(status),
                Err(e) => r == Err::<(), _>(OutboxEventDomainError::InvalidStatusTransition(e))
                    && final(self)@ == old(self)@,
            },
    {
        let current_retry_count = match &self.status {
            OutboxEventStatus::Pending => 0,
            OutboxEventStatus::Failed { retry_count, .. } => *retry_count,
            OutboxEventStatus::Completed { .. } => {
                return Err(
                    OutboxEventDomainError::InvalidStatusTransition(
                        OutboxStatusTransitionError::AlreadyCompleted {
                            to: OutboxEventStatusKind::Failed,
                        },
                    ),
                );
            },
            OutboxEventStatus::PermanentlyFailed { .. } => {
                return Err(
                    OutboxEventDomainError::InvalidStatusTransition(
                        OutboxStatusTransitionError::AlreadyPermanentlyFailed {
                            to: OutboxEventStatusKind::Failed,
                        },
                    ),
                );
            },
        };
        let retry_count = current_retry_count + 1;
        self.status = match next {
            NextAttemptStatus::RetryAt(next_attempt_at) => OutboxEventStatus::Failed {
                retry_count,
                next_attempt_at,
                last_attempted_at: process_start_at,
                failed_at: now,
            },
            NextAttemptStatus::PermanentlyFailed => OutboxEventStatus::PermanentlyFailed {
                retry_count,
                last_attempted_at: process_start_at,
                failed_at: now,
            },
        };
        Ok(())
    }

    /// Records that the attempt that started at `process_start_at` failed, at
    /// the time the clock tells, with the calculator deciding from the number of
    /// earlier failures and that time whether the event is tried again: the
    /// recorded status is the one that the calculator's answer to exactly that
    /// question gives. The clock and the calculator are asked only when the
    /// event can change.
    pub fn handle_failure<N: NextAttemptCalculator, C: Clock>(
        &mut self,
        process_start_at: UtcDateTime,
        calculator: &N,
        clock: &C,
    ) -> (r: Result<(), OutboxEventDomainError>)
        requires
            !old(self)@.status.is_finished() ==> old(self)@.status.spec_retry_count() < u32::MAX,
        ensures
            !old(self)@.status.is_finished() ==> clock.spec_reads(
                final(self)@.status.spec_processed_at().unwrap(),
            ),
            old(self)@.status.is_finished() ==> r == Err::<(), _>(
                OutboxEventDomainError::InvalidStatusTransition(
                    old(self)@.status.refusal(OutboxEventStatusKind::Failed),
                ),
            ) && final(self)@ == old(self)@,
            !old(self)@.status.is_finished() ==> r is Ok && final(self)@ == old(self)@.with_status(
                final(self)@.status,
            ) && (exists|next: NextAttemptStatus|
                calculator.spec_allows(
                    old(self)@.status.spec_retry_count(),
                    final(self)@.status.spec_processed_at().unwrap(),
                    next,
                ) && #[trigger] old(self)@.status.failed(
                    process_start_at,
                    final(self)@.status.spec_processed_at().unwrap(),
                    next,
                ) == Ok::<OutboxEventStatus, OutboxStatusTransitionError>(final(self)@.status)),
    {
        let (now, retry_count) = match &self.status {
            OutboxEventStatus::Pending => (clock.now(), 0),
            OutboxEventStatus::Failed { retry_count, .. } => (clock.now(), *retry_count),
            _ => return self.handle_failure_at(
                process_start_at,
                process_start_at,
                NextAttemptStatus::PermanentlyFailed,
            ),
        };
        let next = calculator.next_attempt_status(retry_count, now);
        let ghost old_status = self@.status;
        let r = self.handle_failure_at(process_start_at, now, next);
        proof {
            assert(old_status.failed(process_start_at, self@.status.spec_processed_at().unwrap(), next)
                == Ok::<OutboxEventStatus, OutboxStatusTransitionError>(self@.status));
        }
        r
    }
}

impl EntityTrait for OutboxEvent {
    type Identity = OutboxEventId;

    open spec fn spec_identity(&self) -> OutboxEventId {
        self@.id
    }

    fn identity(&self) -> (r: OutboxEventId) {
        self.id
    }
}

impl PartialEq for OutboxEvent {
    fn eq(&self, other: &OutboxEvent) -> (r: bool) {
        self.id == other.id
    }
}

impl vstd::std_specs::cmp::PartialEqSpecImpl for OutboxEvent {
    open spec fn obeys_eq_spec() -> bool {
        true
    }

    open spec fn eq_spec(&self, other: &OutboxEvent) -> bool {
        self.spec_identity() == other.spec_identity()
    }
}

impl Eq for OutboxEvent {}

impl OutboxEvent {
    /// Two outbox events are the same event exactly when their identifiers are
    /// equal, whatever their status.
    pub proof fn lemma_equal_exactly_by_identifier(a: OutboxEvent, b: OutboxEvent)
        ensures
            a.eq_spec(&b) <==> a@.id == b@.id,
            a.eq_spec(&b) <==> a.spec_identity() == b.spec_identity(),
    {
    }
}

} // verus!
