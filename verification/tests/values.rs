use domain::time::{Clock, UtcDateTime, MAX_TIMESTAMP_SECS, MIN_TIMESTAMP_SECS};
use domain::user::{
    EmailTrait, EmailVerificationError, EmailVerifier, HashedPassword, ModificationWithInvalidStateError,
    UnverifiedEmail, User, UserDomainError, UserEvent, UserId, UserStateKind,
    UserStateTransitionError, UserUniquenessService, VerifiedEmail,
};

#[test]
fn utc_date_time_range_and_parts() {
    assert!(UtcDateTime::from_timestamp(MAX_TIMESTAMP_SECS, 999_999_999).is_some());
    assert!(UtcDateTime::from_timestamp(MAX_TIMESTAMP_SECS + 1, 0).is_none());
    assert!(UtcDateTime::from_timestamp(MIN_TIMESTAMP_SECS, 0).is_some());
    assert!(UtcDateTime::from_timestamp(MIN_TIMESTAMP_SECS - 1, 0).is_none());
    assert!(UtcDateTime::from_timestamp(0, 1_000_000_000).is_none());
    let t = UtcDateTime::from_timestamp(-2, 250_000_000).unwrap();
    assert_eq!(t.timestamp(), -2);
    assert_eq!(t.timestamp_subsec_nanos(), 250_000_000);
    assert_eq!(t.timestamp_millis(), -1_750);
}

#[test]
fn modification_messages_for_clients() {
    assert_eq!(
        ModificationWithInvalidStateError::EmailModification { state: UserStateKind::Active }
            .message_for_client(),
        "該当ユーザーはメールアドレスの変更ができない状態です"
    );
    assert_eq!(
        ModificationWithInvalidStateError::UsernameModification { state: UserStateKind::Active }
            .message_for_client(),
        "該当ユーザーはユーザー名の変更ができない状態です"
    );
}

struct CountingClock(std::cell::Cell<u32>);

impl Clock for CountingClock {
    fn now(&self) -> UtcDateTime {
        self.0.set(self.0.get() + 1);
        UtcDateTime::from_timestamp(50_000, 0).unwrap()
    }
}

struct AcceptingVerifier;

impl EmailVerifier for AcceptingVerifier {
    fn verify(&self, email: &UnverifiedEmail) -> Result<VerifiedEmail, EmailVerificationError> {
        Ok(VerifiedEmail::new(email.as_str()).unwrap())
    }
}

fn pending_user() -> User {
    let info = UserUniquenessService::new(())
        .ensure_unique("frank", false, "frank@example.com", false)
        .unwrap();
    User::new(
        UserId::from_u128(11),
        info,
        HashedPassword::from_raw_str("h"),
        UtcDateTime::from_timestamp(10, 0).unwrap(),
    )
    .unwrap()
}

#[test]
fn the_clock_is_read_only_for_changes_that_happen() {
    let clock = CountingClock(std::cell::Cell::new(0));
    let mut user = pending_user();
    assert!(matches!(
        user.deactivate(&clock),
        Err(UserDomainError::StateTransitionError(UserStateTransitionError::NotVerified { .. }))
    ));
    assert_eq!(clock.0.get(), 0);
    user.verify_email(&AcceptingVerifier, &clock).unwrap();
    assert_eq!(clock.0.get(), 1);
    assert_eq!(user.state().kind_raw(), UserStateKind::Active);
    user.verify_email(&AcceptingVerifier, &clock).unwrap();
    assert_eq!(clock.0.get(), 1);
    user.deactivate(&clock).unwrap();
    user.activate::<AcceptingVerifier, _>(&clock).unwrap();
    assert_eq!(clock.0.get(), 3);
    assert_eq!(user.updated_at(), UtcDateTime::from_timestamp(50_000, 0).unwrap());
}

#[test]
fn event_kinds_and_times() {
    let mut user = pending_user();
    user.verify_email_at(&AcceptingVerifier, UtcDateTime::from_timestamp(20, 0).unwrap()).unwrap();
    user.deactivate_at(UtcDateTime::from_timestamp(30, 0).unwrap()).unwrap();
    user.activate_at(UtcDateTime::from_timestamp(40, 0).unwrap()).unwrap();
    let events = domain::shared::outbox_event::EntityWithEvents::pull_events(&mut user);
    let names: Vec<&str> = events
        .iter()
        .map(|e| match e.domain_event() {
            domain::shared::domain_event::DomainEvent::UserEvent(u) => u.kind_name(),
        })
        .collect();
    assert_eq!(names, vec!["Created", "EmailVerified", "Deactivated", "Reactivated"]);
    let times: Vec<i64> = events.iter().map(|e| e.created_at().timestamp()).collect();
    assert_eq!(times, vec![10, 20, 30, 40]);
    if let domain::shared::domain_event::DomainEvent::UserEvent(UserEvent::Reactivated(e)) =
        events[3].domain_event()
    {
        assert_eq!(e.email.as_str(), "frank@example.com");
    } else {
        panic!("expected a reactivation");
    }
}

#[test]
fn hashed_password_converts_into_its_text() {
    let text: String = HashedPassword::from_raw_str("$argon2id$x").into();
    assert_eq!(text, "$argon2id$x");
}
