use domain::shared::outbox_event::{EntityWithEvents, OutboxEventStatus};
use domain::time::{Clock, UtcDateTime};
use domain::user::{
    EmailTrait, EmailVerificationError, EmailVerifier, HashedPassword, ModificationWithInvalidStateError,
    UnverifiedEmail, User, UserCreationError, UserDomainError, UserFactory, UserId,
    UserIdGenerationError, UserIdGenerator, UserRole, UserStateKind, UserStateTransitionError,
    UserUniquenessService, VerifiedEmail,
};

fn at(secs: i64) -> UtcDateTime {
    UtcDateTime::from_timestamp(secs, 0).unwrap()
}

struct FixedClock(i64);

impl Clock for FixedClock {
    fn now(&self) -> UtcDateTime {
        at(self.0)
    }
}

struct AcceptingVerifier;

impl EmailVerifier for AcceptingVerifier {
    fn verify(&self, email: &UnverifiedEmail) -> Result<VerifiedEmail, EmailVerificationError> {
        Ok(VerifiedEmail::new(email.as_str()).unwrap())
    }
}

struct FixedIdGenerator(u128);

impl UserIdGenerator for FixedIdGenerator {
    fn generate(&self) -> Result<UserId, UserIdGenerationError> {
        Ok(UserId::from_u128(self.0))
    }
}

fn new_user() -> User {
    let service = UserUniquenessService::new(());
    let info = service.ensure_unique("alice", false, "alice@example.com", false).unwrap();
    User::new(UserId::from_u128(7), info, HashedPassword::from_raw_str("$argon2id$h"), at(1_000)).unwrap()
}

fn active_user() -> User {
    let mut user = new_user();
    user.verify_email_at(&AcceptingVerifier, at(2_000)).unwrap();
    user
}

#[test]
fn new_user_waits_for_verification() {
    let user = new_user();
    assert_eq!(user.id(), UserId::from_u128(7));
    assert_eq!(user.username(), "alice");
    assert_eq!(user.role(), UserRole::User);
    assert_eq!(user.state().kind(), "pending_verification");
    assert_eq!(user.email().as_str(), "alice@example.com");
    assert_eq!(user.created_at(), at(1_000));
    assert_eq!(user.updated_at(), at(1_000));
}

#[test]
fn verify_email_makes_the_user_active() {
    let user = active_user();
    assert_eq!(user.state().kind_raw(), UserStateKind::Active);
    assert_eq!(user.updated_at(), at(2_000));
    assert!(matches!(user.email(), domain::user::Email::Verified(_)));
}

#[test]
fn suspend_then_unlock_brings_the_user_back_unverified() {
    let mut user = active_user();
    user.suspend_at("spam".to_string(), at(3_000)).unwrap();
    assert_eq!(user.state().kind_raw(), UserStateKind::SuspendedByAdmin);
    user.unlock_suspension_at(at(4_000)).unwrap();
    assert_eq!(user.state().kind_raw(), UserStateKind::ActiveWithUnverifiedEmail);
    assert_eq!(user.email().as_str(), "alice@example.com");
    assert_eq!(user.updated_at(), at(4_000));
    let events = user.pull_events();
    let kinds: Vec<String> = events.iter().map(|e| e.domain_event().to_string()).collect();
    assert_eq!(
        kinds,
        vec![
            "UserEvent::Created",
            "UserEvent::EmailVerified",
            "UserEvent::Suspended",
            "UserEvent::Unlocked"
        ]
    );
}

#[test]
fn suspending_a_suspended_user_changes_nothing() {
    let mut user = active_user();
    user.suspend_at("spam".to_string(), at(3_000)).unwrap();
    user.suspend_at("again".to_string(), at(5_000)).unwrap();
    assert_eq!(user.updated_at(), at(3_000));
    assert_eq!(user.pull_events().len(), 3);
}

#[test]
fn unlocking_a_user_who_is_not_suspended_is_refused() {
    let mut user = active_user();
    match user.unlock_suspension_at(at(3_000)) {
        Err(UserDomainError::StateTransitionError(UserStateTransitionError::NotSuspended {
            from,
        })) => assert_eq!(from.kind_raw(), UserStateKind::Active),
        other => panic!("unexpected result {:?}", other),
    }
    assert_eq!(user.updated_at(), at(2_000));
}

#[test]
fn deactivate_then_activate() {
    let mut user = active_user();
    user.deactivate_at(at(3_000)).unwrap();
    assert_eq!(user.state().kind(), "deactivated_by_user");
    user.activate_at(at(4_000)).unwrap();
    assert_eq!(user.state().kind(), "active_with_unverified_email");
    assert_eq!(user.email().as_str(), "alice@example.com");
}

#[test]
fn deactivating_an_unverified_user_is_refused() {
    let mut user = new_user();
    let result = user.deactivate_at(at(3_000));
    assert!(matches!(
        result,
        Err(UserDomainError::StateTransitionError(UserStateTransitionError::NotVerified { .. }))
    ));
    assert_eq!(user.updated_at(), at(1_000));
}

#[test]
fn a_suspended_user_cannot_deactivate_or_activate() {
    let mut user = active_user();
    user.suspend_at("spam".to_string(), at(3_000)).unwrap();
    assert_eq!(
        user.deactivate_at(at(4_000)),
        Err(UserDomainError::StateTransitionError(UserStateTransitionError::AlreadySuspended {
            to: UserStateKind::DeactivatedByUser
        }))
    );
    assert_eq!(
        user.activate_at(at(4_000)),
        Err(UserDomainError::StateTransitionError(UserStateTransitionError::AlreadySuspended {
            to: UserStateKind::Active
        }))
    );
}

#[test]
fn change_email_needs_verification_again() {
    let mut user = active_user();
    let service = UserUniquenessService::new(());
    let new_email = service.ensure_unique_email("alice2@example.com", false).unwrap();
    user.change_email_at(new_email, at(3_000)).unwrap();
    assert_eq!(user.state().kind_raw(), UserStateKind::ActiveWithUnverifiedEmail);
    assert_eq!(user.email().as_str(), "alice2@example.com");
    user.verify_email_at(&AcceptingVerifier, at(4_000)).unwrap();
    assert_eq!(user.state().kind_raw(), UserStateKind::Active);
    assert_eq!(user.email().as_str(), "alice2@example.com");
}

#[test]
fn change_email_of_a_suspended_user_is_refused() {
    let mut user = active_user();
    user.suspend_at("spam".to_string(), at(3_000)).unwrap();
    let service = UserUniquenessService::new(());
    let new_email = service.ensure_unique_email("x@example.com", false).unwrap();
    assert_eq!(
        user.change_email_at(new_email, at(4_000)),
        Err(ModificationWithInvalidStateError::EmailModification {
            state: UserStateKind::SuspendedByAdmin
        })
    );
}

#[test]
fn change_username_records_old_and_new_names() {
    let mut user = new_user();
    let service = UserUniquenessService::new(());
    let name = service.ensure_unique_username("bob", false).unwrap();
    user.change_username_at(name, at(3_000)).unwrap();
    assert_eq!(user.username(), "bob");
    assert_eq!(user.updated_at(), at(3_000));
}

#[test]
fn clock_versions_use_the_clock() {
    let mut user = active_user();
    user.suspend("spam".to_string(), &FixedClock(9_000)).unwrap();
    assert_eq!(user.updated_at(), at(9_000));
    user.unlock_suspension(&FixedClock(9_500)).unwrap();
    assert_eq!(user.updated_at(), at(9_500));
}

#[test]
fn pull_events_hands_out_every_event_once() {
    let mut user = active_user();
    let events = user.pull_events();
    assert_eq!(events.len(), 2);
    assert_eq!(events[0].created_at(), at(1_000));
    assert_eq!(events[1].created_at(), at(2_000));
    assert_eq!(events[0].status(), OutboxEventStatus::Pending);
    assert_ne!(events[0].id(), events[1].id());
    assert!(user.pull_events().is_empty());
}

#[test]
fn users_with_the_same_identifier_are_the_same_user() {
    let a = new_user();
    let mut b = new_user();
    b.suspend_at("x".to_string(), at(5_000)).unwrap();
    assert!(a == b);
}

#[test]
fn factory_creates_a_registered_user() {
    let factory = UserFactory::new(FixedClock(1_234));
    let service = UserUniquenessService::new(());
    let info = service.ensure_unique("carol", false, "carol@example.com", false).unwrap();
    let user = factory
        .create_new_user(&FixedIdGenerator(99), info, HashedPassword::from_raw_str("h"))
        .unwrap();
    assert_eq!(user.id(), UserId::from_u128(99));
    assert_eq!(user.created_at(), at(1_234));
    assert_eq!(user.username(), "carol");
}

struct FailingIdGenerator;

impl UserIdGenerator for FailingIdGenerator {
    fn generate(&self) -> Result<UserId, UserIdGenerationError> {
        Err(UserIdGenerationError::GenerationFailed(
            domain::infrastructure::uuid_v7::UuidError::TimestampOutOfRange(-1),
        ))
    }
}

#[test]
fn factory_reports_a_failing_generator() {
    let factory = UserFactory::new(FixedClock(1_234));
    let service = UserUniquenessService::new(());
    let info = service.ensure_unique("carol", false, "carol@example.com", false).unwrap();
    let result = factory.create_new_user(&FailingIdGenerator, info, HashedPassword::from_raw_str("h"));
    assert!(matches!(result, Err(UserCreationError::IdGenerationFailed(_))));
}

#[test]
fn uniqueness_checks_report_taken_names() {
    let service = UserUniquenessService::new(());
    assert!(matches!(
        service.ensure_unique("alice", true, "alice@example.com", false),
        Err(UserDomainError::AlreadyExists(_))
    ));
    assert!(matches!(
        service.ensure_unique("alice", false, "not-an-address", false),
        Err(UserDomainError::InvalidEmail(_))
    ));
}
