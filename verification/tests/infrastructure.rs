use std::sync::Mutex;

use domain::infrastructure::backoff::backoff_next_attempt_status;
use domain::infrastructure::email_service::StubEmailService;
use domain::infrastructure::entity_tracker::EntityTracker;
use domain::infrastructure::id_generator::{
    UuidOutboxEventIdGeneratorFactory, UuidOutboxIdGenerator, UuidUserIdGenerator,
    UuidUserIdGeneratorFactory,
};
use domain::infrastructure::password_service::Argon2PasswordHasher;
use domain::infrastructure::uuid_v7::{
    calculate_v7_timestamp_parts, generate_uuid_v7, generate_uuid_v7_with_parts, UuidError,
};
use domain::relay::{RelayEvent, RelayState, RelayStep};
use domain::shared::domain_event::DomainEvent;
use domain::shared::outbox_event::{
    NextAttemptStatus, OutboxEvent, OutboxEventIdGenerationError, OutboxEventIdGenerator,
    OutboxEventIdGeneratorFactory,
};
use domain::time::{Clock, UtcDateTime};
use domain::user::{
    EmailTrait, HashedPassword, PasswordHasher, User, UserId, UserUniquenessService, RawPassword, UnverifiedEmail, UserCreatedEvent, UserEvent,
    UserIdGenerationError, UserIdGenerator, UserIdGeneratorFactory,
};

fn at(secs: i64, nanos: u32) -> UtcDateTime {
    UtcDateTime::from_timestamp(secs, nanos).unwrap()
}

#[derive(Clone)]
struct FixedClock(i64);

impl Clock for FixedClock {
    fn now(&self) -> UtcDateTime {
        at(self.0, 0)
    }
}

#[test]
fn v7_timestamp_parts_round_down_to_the_millisecond() {
    assert_eq!(calculate_v7_timestamp_parts(at(1_700_000_000, 123_456_789)), Ok((1_700_000_000, 123_000_000)));
    assert_eq!(calculate_v7_timestamp_parts(at(0, 0)), Ok((0, 0)));
    assert_eq!(calculate_v7_timestamp_parts(at(-1, 0)), Err(UuidError::TimestampOutOfRange(-1000)));
    assert_eq!(
        calculate_v7_timestamp_parts(at(281_474_976_711, 0)),
        Err(UuidError::TimestampOutOfRange(281_474_976_711_000))
    );
    assert_eq!(calculate_v7_timestamp_parts(at(281_474_976_710, 655_000_000)), Ok((281_474_976_710, 655_000_000)));
}

#[test]
fn v7_uuids_carry_version_and_variant() {
    let context = Mutex::new(uuid::ContextV7::new());
    let v = generate_uuid_v7(at(1_700_000_000, 0), &context).unwrap();
    assert_eq!((v >> 76) & 0xf, 7);
    assert_eq!((v >> 62) & 0x3, 2);
    assert_eq!((v >> 80) as u64, 1_700_000_000_000);
    let w = generate_uuid_v7_with_parts(&context, 1_700_000_000, 0);
    assert!(w > v);
    assert_eq!(generate_uuid_v7(at(-5, 0), &context), Err(UuidError::TimestampOutOfRange(-5000)));
}

#[test]
fn id_generators_issue_v7_identifiers() {
    let users = UuidUserIdGeneratorFactory::new(FixedClock(1_700_000_000)).create_user_id_generator();
    let a = users.generate().unwrap().as_u128();
    let b = users.generate().unwrap().as_u128();
    assert_eq!((a >> 76) & 0xf, 7);
    assert!(b > a);
    let outbox = UuidOutboxEventIdGeneratorFactory::new(FixedClock(1_700_000_000)).create_outbox_event_id_generator();
    let id = outbox.generate().unwrap().as_u128();
    assert_eq!((id >> 76) & 0xf, 7);
}

#[test]
fn id_generators_refuse_times_before_the_epoch() {
    let users = UuidUserIdGenerator::new(FixedClock(-10));
    assert_eq!(
        users.generate(),
        Err(UserIdGenerationError::GenerationFailed(UuidError::TimestampOutOfRange(-10_000)))
    );
    let outbox = UuidOutboxIdGenerator::new(FixedClock(-10));
    assert_eq!(
        outbox.generate(),
        Err(OutboxEventIdGenerationError::GenerationFailed(UuidError::TimestampOutOfRange(-10_000)))
    );
}

#[test]
fn checked_add_millis_moves_the_time() {
    let t = at(10, 500_000_000);
    assert_eq!(t.checked_add_millis(1_700), Some(at(12, 200_000_000)));
    assert_eq!(t.checked_add_millis(-10_600), Some(at(-1, 900_000_000)));
    assert_eq!(at(8_210_266_876_799, 0).checked_add_millis(1_000), None);
    assert_eq!(at(-8_334_601_315_200, 0).checked_add_millis(-1), None);
    assert_eq!(t.timestamp_millis(), 10_500);
}

#[test]
fn backoff_gives_up_after_the_maximum() {
    let last = at(1_000, 0);
    assert_eq!(backoff_next_attempt_status(2, 5, last, 8, 250), NextAttemptStatus::RetryAt(at(1_008, 250_000_000)));
    assert_eq!(backoff_next_attempt_status(5, 5, last, 8, 250), NextAttemptStatus::PermanentlyFailed);
    assert_eq!(backoff_next_attempt_status(9, 5, last, 8, 250), NextAttemptStatus::PermanentlyFailed);
}

#[test]
fn argon2_hashes_verify_their_password() {
    let hasher = Argon2PasswordHasher;
    let raw = RawPassword::new("correct horse battery").unwrap();
    let hashed = hasher.hash(&raw).unwrap();
    assert_ne!(hashed.as_str(), "correct horse battery");
    assert!(hashed.as_str().starts_with("$argon2"));
    assert!(hasher.verify(&raw, &hashed));
    let other = RawPassword::new("another password").unwrap();
    assert!(!hasher.verify(&other, &hashed));
    assert!(!hasher.verify(&raw, &HashedPassword::from_raw_str("not a hash")));
}

#[test]
fn raw_passwords_need_eight_characters() {
    assert!(RawPassword::new("1234567").is_err());
    let p = RawPassword::new("12345678").unwrap();
    assert_eq!(p.as_bytes(), b"12345678");
    assert!(RawPassword::new("パスワード").is_err());
    assert!(RawPassword::new("パスワードです").is_err());
    let q = RawPassword::new("パスワードですよ").unwrap();
    assert_eq!(q.as_bytes(), "パスワードですよ".as_bytes());
    assert!(RawPassword::new("").is_err());
}

#[test]
fn relay_worker_steps() {
    assert_eq!(RelayState::Idle.next(RelayEvent::Tick, 10), Some(RelayStep { state: RelayState::Busy, reset_interval: false }));
    assert_eq!(RelayState::Idle.next(RelayEvent::Cancelled, 10), None);
    assert_eq!(RelayState::Busy.next(RelayEvent::Cancelled, 10), None);
    assert_eq!(
        RelayState::Busy.next(RelayEvent::BatchProcessed(10), 10),
        Some(RelayStep { state: RelayState::Busy, reset_interval: false })
    );
    assert_eq!(
        RelayState::Busy.next(RelayEvent::BatchProcessed(3), 10),
        Some(RelayStep { state: RelayState::Idle, reset_interval: true })
    );
    assert_eq!(
        RelayState::Busy.next(RelayEvent::BatchFailed, 10),
        Some(RelayStep { state: RelayState::Idle, reset_interval: true })
    );
}

fn some_event(secs: i64) -> OutboxEvent {
    OutboxEvent::new(
        DomainEvent::UserEvent(UserEvent::Created(UserCreatedEvent {
            email: UnverifiedEmail::new("t@example.com").unwrap(),
            username: "t".to_string(),
            registered_at: at(secs, 0),
        })),
        at(secs, 0),
    )
}

#[test]
fn entity_tracker_collects_and_drains_in_order() {
    let mut tracker = EntityTracker::new();
    tracker.track_events(vec![some_event(1), some_event(2)]);
    tracker.track_events(Vec::new());
    tracker.track_events(vec![some_event(3)]);
    let drained = tracker.drain_all_events();
    let times: Vec<i64> = drained.iter().map(|e| e.created_at().timestamp()).collect();
    assert_eq!(times, vec![1, 2, 3]);
    assert!(tracker.drain_all_events().is_empty());
}

#[test]
fn stub_email_service_is_constructible() {
    let _a = StubEmailService::new();
    let _b = StubEmailService::default();
}

#[test]
fn entity_tracker_takes_what_a_user_recorded() {
    let info = UserUniquenessService::new(())
        .ensure_unique("gina", false, "gina@example.com", false)
        .unwrap();
    let mut user = User::new(UserId::from_u128(3), info, HashedPassword::from_raw_str("h"), at(7, 0)).unwrap();
    user.suspend_at("abuse".to_string(), at(8, 0)).unwrap();
    let mut tracker = EntityTracker::new();
    tracker.track_events(vec![some_event(1)]);
    tracker.track(user);
    let drained = tracker.drain_all_events();
    let names: Vec<String> = drained.iter().map(|e| e.domain_event().to_string()).collect();
    assert_eq!(names, vec!["UserEvent::Created", "UserEvent::Created", "UserEvent::Suspended"]);
    let times: Vec<i64> = drained.iter().map(|e| e.created_at().timestamp()).collect();
    assert_eq!(times, vec![1, 7, 8]);
}

#[test]
fn v7_uuids_without_context_carry_the_given_time() {
    let v = generate_uuid_v7_with_parts(&uuid::NoContext, 1_700_000_000, 5_000_000);
    assert_eq!(v >> 80, 1_700_000_000_005);
    assert_eq!((v >> 76) & 0xf, 7);
    assert_eq!((v >> 62) & 0x3, 2);
    let w = generate_uuid_v7(at(12, 345_678_901), &uuid::NoContext).unwrap();
    assert_eq!(w >> 80, 12_345);
}
