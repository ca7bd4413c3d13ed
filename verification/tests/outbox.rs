use domain::shared::domain_event::DomainEvent;
use domain::shared::outbox_event::{
    NextAttemptCalculator, NextAttemptStatus, OutboxEvent, OutboxEventDomainError, OutboxEventId,
    OutboxEventReconstructionError, OutboxEventStatus, OutboxEventStatusKind, OutboxEventStatusRaw,
    OutboxStatusTransitionError, TraceId,
};
use domain::time::{Clock, UtcDateTime};
use domain::user::{EmailTrait, UnverifiedEmail, UserCreatedEvent, UserEvent};

fn at(secs: i64) -> UtcDateTime {
    UtcDateTime::from_timestamp(secs, 0).unwrap()
}

fn created_event() -> DomainEvent {
    DomainEvent::UserEvent(UserEvent::Created(UserCreatedEvent {
        email: UnverifiedEmail::new("user@example.com").unwrap(),
        username: "user123".to_string(),
        registered_at: at(100),
    }))
}

fn raw(kind: &str, next: Option<i64>, last: Option<i64>, processed: Option<i64>) -> OutboxEventStatusRaw {
    OutboxEventStatusRaw {
        kind: kind.to_string(),
        retry_count: 3,
        next_attempt_at: next.map(at),
        last_attempted_at: last.map(at),
        processed_at: processed.map(at),
    }
}

struct FixedClock(i64);

impl Clock for FixedClock {
    fn now(&self) -> UtcDateTime {
        at(self.0)
    }
}

struct RetryInTen;

impl NextAttemptCalculator for RetryInTen {
    fn next_attempt_status(&self, retry_count: u32, last_failed_at: UtcDateTime) -> NextAttemptStatus {
        if retry_count >= 2 {
            NextAttemptStatus::PermanentlyFailed
        } else {
            NextAttemptStatus::RetryAt(last_failed_at.checked_add_millis(10_000).unwrap())
        }
    }
}

#[test]
fn new_outbox_event_is_pending_with_a_random_id() {
    let event = OutboxEvent::new(created_event(), at(100));
    assert_eq!(event.status(), OutboxEventStatus::Pending);
    assert_eq!(event.created_at(), at(100));
    assert_eq!(event.retry_count(), 0);
    assert_eq!(event.next_attempt_at(), None);
    assert_eq!(event.last_attempted_at(), None);
    assert_eq!(event.processed_at(), None);
    assert_eq!(event.trace_id(), None);
    assert_eq!((event.id().as_u128() >> 76) & 0xf, 4);
    assert_eq!((event.id().as_u128() >> 62) & 0x3, 2);
    assert_eq!(event.domain_event().event_type(), "UserEvent::Created");
}

#[test]
fn status_kind_names() {
    assert_eq!(OutboxEventStatusKind::Pending.as_str(), "pending");
    assert_eq!(OutboxEventStatusKind::Failed.as_str(), "failed");
    assert_eq!(OutboxEventStatusKind::Completed.as_str(), "completed");
    assert_eq!(OutboxEventStatusKind::PermanentlyFailed.as_str(), "permanently_failed");
    assert_eq!(OutboxEventStatusKind::parse("permanently_failed"), Some(OutboxEventStatusKind::PermanentlyFailed));
    assert_eq!(OutboxEventStatusKind::parse("Pending"), None);
    assert_eq!(OutboxEventStatus::Pending.kind(), "pending");
}

#[test]
fn status_try_from_rebuilds_each_kind() {
    assert_eq!(OutboxEventStatus::try_from(raw("pending", None, None, None)), Ok(OutboxEventStatus::Pending));
    assert_eq!(
        OutboxEventStatus::try_from(raw("failed", Some(3), Some(1), Some(2))),
        Ok(OutboxEventStatus::Failed {
            retry_count: 3,
            next_attempt_at: at(3),
            last_attempted_at: at(1),
            failed_at: at(2)
        })
    );
    assert_eq!(
        OutboxEventStatus::try_from(raw("completed", None, Some(1), Some(2))),
        Ok(OutboxEventStatus::Completed { retry_count: 3, last_attempted_at: at(1), completed_at: at(2) })
    );
    assert_eq!(
        OutboxEventStatus::try_from(raw("permanently_failed", None, Some(1), Some(2))),
        Ok(OutboxEventStatus::PermanentlyFailed {
            retry_count: 3,
            last_attempted_at: at(1),
            failed_at: at(2)
        })
    );
}

#[test]
fn status_try_from_reports_the_first_missing_time() {
    let cases = vec![
        (raw("failed", None, None, None), OutboxEventReconstructionError::FailedButNoNextAttemptAt),
        (raw("failed", Some(3), None, None), OutboxEventReconstructionError::FailedButNoLastAttemptedAt),
        (raw("failed", Some(3), Some(1), None), OutboxEventReconstructionError::FailedButNoProcessedAt),
        (raw("completed", None, None, None), OutboxEventReconstructionError::CompletedButNoLastAttemptedAt),
        (raw("completed", None, Some(1), None), OutboxEventReconstructionError::CompletedButNoProcessedAt),
        (raw("permanently_failed", None, None, None), OutboxEventReconstructionError::PermanentlyFailedButNoLastAttemptedAt),
        (raw("permanently_failed", None, Some(1), None), OutboxEventReconstructionError::PermanentlyFailedButNoProcessedAt),
        (raw("done", None, None, None), OutboxEventReconstructionError::InvalidStatus { invalid_status: "done".to_string() }),
    ];
    for (raw, expected) in cases {
        assert_eq!(OutboxEventStatus::try_from(raw), Err(expected));
    }
}

#[test]
fn complete_pending_and_failed_events() {
    let mut event = OutboxEvent::new(created_event(), at(100));
    event.complete_at(at(200), at(201)).unwrap();
    assert_eq!(
        event.status(),
        OutboxEventStatus::Completed { retry_count: 0, last_attempted_at: at(200), completed_at: at(201) }
    );
    assert_eq!(event.processed_at(), Some(at(201)));
    assert_eq!(
        event.complete_at(at(300), at(301)),
        Err(OutboxEventDomainError::InvalidStatusTransition(
            OutboxStatusTransitionError::AlreadyCompleted { to: OutboxEventStatusKind::Completed }
        ))
    );
    assert_eq!(event.processed_at(), Some(at(201)));
}

#[test]
fn failures_count_until_permanent() {
    let mut event = OutboxEvent::new(created_event(), at(100));
    event.handle_failure(at(200), &RetryInTen, &FixedClock(201)).unwrap();
    assert_eq!(
        event.status(),
        OutboxEventStatus::Failed {
            retry_count: 1,
            next_attempt_at: at(211),
            last_attempted_at: at(200),
            failed_at: at(201)
        }
    );
    event.handle_failure(at(300), &RetryInTen, &FixedClock(301)).unwrap();
    assert_eq!(event.retry_count(), 2);
    assert_eq!(event.next_attempt_at(), Some(at(311)));
    event.handle_failure(at(400), &RetryInTen, &FixedClock(401)).unwrap();
    assert_eq!(
        event.status(),
        OutboxEventStatus::PermanentlyFailed { retry_count: 3, last_attempted_at: at(400), failed_at: at(401) }
    );
    assert_eq!(
        event.handle_failure(at(500), &RetryInTen, &FixedClock(501)),
        Err(OutboxEventDomainError::InvalidStatusTransition(
            OutboxStatusTransitionError::AlreadyPermanentlyFailed { to: OutboxEventStatusKind::Failed }
        ))
    );
    assert_eq!(
        event.complete(at(500), &FixedClock(501)),
        Err(OutboxEventDomainError::InvalidStatusTransition(
            OutboxStatusTransitionError::AlreadyPermanentlyFailed { to: OutboxEventStatusKind::Completed }
        ))
    );
}

#[test]
fn completing_after_a_failure_keeps_the_count() {
    let mut event = OutboxEvent::new(created_event(), at(100));
    event.handle_failure_at(at(200), at(201), NextAttemptStatus::RetryAt(at(250))).unwrap();
    event.complete(at(260), &FixedClock(262)).unwrap();
    assert_eq!(
        event.status(),
        OutboxEventStatus::Completed { retry_count: 1, last_attempted_at: at(260), completed_at: at(262) }
    );
}

#[test]
fn transition_messages_for_clients() {
    assert_eq!(
        OutboxStatusTransitionError::AlreadyCompleted { to: OutboxEventStatusKind::Failed }.message_for_client(),
        "すでに完了済みのイベントのステータス変更は許可されていません"
    );
    assert_eq!(
        OutboxStatusTransitionError::AlreadyPermanentlyFailed { to: OutboxEventStatusKind::Failed }
            .message_for_client(),
        "恒久的に失敗したイベントのステータス変更は許可されていません"
    );
}

#[test]
fn reconstruct_a_stored_event() {
    let id = OutboxEventId::from_u128(42);
    let event = OutboxEvent::reconstruct(
        id,
        Ok(created_event()),
        raw("failed", Some(3), Some(1), Some(2)),
        Some("58406520a006649127e371903a2de979".to_string()),
        at(100),
    )
    .unwrap();
    assert_eq!(event.id(), id);
    assert_eq!(event.retry_count(), 3);
    assert_eq!(event.trace_id(), Some(TraceId::from_u128(0x58406520a006649127e371903a2de979)));
    assert_eq!(event.created_at(), at(100));
}

#[test]
fn reconstruct_reports_errors_in_order() {
    let id = OutboxEventId::from_u128(42);
    let result = OutboxEvent::reconstruct(
        id,
        Err("bad payload".to_string()),
        raw("nonsense", None, None, None),
        Some("zz".to_string()),
        at(100),
    );
    match result {
        Err(OutboxEventReconstructionError::DomainEventReconstructionError(m)) => {
            assert_eq!(m, "bad payload")
        }
        _ => panic!("expected the decoder's error"),
    }
    let result =
        OutboxEvent::reconstruct(id, Ok(created_event()), raw("nonsense", None, None, None), Some("zz".to_string()), at(100));
    assert!(matches!(result, Err(OutboxEventReconstructionError::InvalidStatus { .. })));
    let result =
        OutboxEvent::reconstruct(id, Ok(created_event()), raw("pending", None, None, None), Some("not_hex".to_string()), at(100));
    assert!(matches!(result, Err(OutboxEventReconstructionError::ParseTraceIdError(_))));
    let result = OutboxEvent::reconstruct(id, Ok(created_event()), raw("pending", None, None, None), None, at(100));
    assert_eq!(result.unwrap().trace_id(), None);
}

#[test]
fn from_decoded_parts_takes_the_parsed_trace() {
    let id = OutboxEventId::from_u128(1);
    let event = OutboxEvent::from_decoded_parts(id, Ok(created_event()), raw("pending", None, None, None), Some(Ok(0x42)), at(5))
        .unwrap();
    assert_eq!(event.trace_id(), Some(TraceId::from_u128(0x42)));
    let error = "xyz".parse::<u128>().unwrap_err();
    let result = OutboxEvent::from_decoded_parts(id, Ok(created_event()), raw("pending", None, None, None), Some(Err(error.clone())), at(5));
    match result {
        Err(OutboxEventReconstructionError::ParseTraceIdError(e)) => assert_eq!(e, error),
        _ => panic!("expected the trace identifier's error"),
    }
}

#[test]
fn trace_of_a_span_context() {
    assert_eq!(TraceId::of_span_context(true, 7), Some(TraceId::from_u128(7)));
    assert_eq!(TraceId::of_span_context(false, 7), None);
    assert_eq!(TraceId::current(), None);
}

#[test]
fn outbox_events_are_equal_by_identifier() {
    let a = OutboxEvent::reconstruct(OutboxEventId::from_u128(9), Ok(created_event()), raw("pending", None, None, None), None, at(1)).unwrap();
    let b = OutboxEvent::reconstruct(OutboxEventId::from_u128(9), Ok(created_event()), raw("completed", None, Some(1), Some(2)), None, at(2)).unwrap();
    let c = OutboxEvent::new(created_event(), at(1));
    assert!(a == b);
    assert!(a != c);
}

#[test]
fn trace_ids_are_stored_as_hex_and_read_back() {
    let trace = TraceId::from_u128(0x42);
    let text = trace.to_hex();
    assert_eq!(text, "00000000000000000000000000000042");
    let event = OutboxEvent::reconstruct(
        OutboxEventId::from_u128(1),
        Ok(created_event()),
        raw("pending", None, None, None),
        Some(text),
        at(1),
    )
    .unwrap();
    assert_eq!(event.trace_id(), Some(trace));
}

#[test]
fn a_stored_event_is_rebuilt_as_it_was() {
    let mut original = OutboxEvent::reconstruct(
        OutboxEventId::from_u128(77),
        Ok(created_event()),
        raw("pending", None, None, None),
        Some(TraceId::from_u128(0xabc).to_hex()),
        at(10),
    )
    .unwrap();
    original.handle_failure_at(at(20), at(21), NextAttemptStatus::RetryAt(at(30))).unwrap();
    let stored = OutboxEventStatusRaw {
        kind: original.status().kind().to_string(),
        retry_count: original.retry_count(),
        next_attempt_at: original.next_attempt_at(),
        last_attempted_at: original.last_attempted_at(),
        processed_at: original.processed_at(),
    };
    let rebuilt = OutboxEvent::reconstruct(
        original.id(),
        Ok(created_event()),
        stored,
        original.trace_id().map(|t| t.to_hex()),
        original.created_at(),
    )
    .unwrap();
    assert_eq!(rebuilt.status(), original.status());
    assert_eq!(rebuilt.trace_id(), original.trace_id());
    assert_eq!(rebuilt.created_at(), original.created_at());
    assert!(rebuilt == original);
}

#[test]
fn trace_id_texts_follow_base_sixteen_parsing() {
    let read = |text: &str| {
        OutboxEvent::reconstruct(
            OutboxEventId::from_u128(1),
            Ok(created_event()),
            raw("pending", None, None, None),
            Some(text.to_string()),
            at(1),
        )
        .map(|e| e.trace_id())
    };
    assert_eq!(read("+ff").unwrap(), Some(TraceId::from_u128(0xff)));
    assert_eq!(read("FF").unwrap(), Some(TraceId::from_u128(0xff)));
    assert!(read("").is_err());
    assert!(read("+").is_err());
    assert!(read("-1").is_err());
    assert!(read("ffffffffffffffffffffffffffffffff").is_ok());
    assert!(read("100000000000000000000000000000000").is_err());
}
