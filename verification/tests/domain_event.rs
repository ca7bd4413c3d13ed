use domain::shared::domain_event::DomainEvent;
use domain::time::UtcDateTime;
use domain::user::{
    EmailTrait, UnverifiedEmail, UserCreatedEvent, UserDeactivatedEvent, UserEvent,
    UserSuspendedEvent, UserUnlockedEvent,
};

fn fixed_time() -> UtcDateTime {
    UtcDateTime::from_timestamp(1_735_689_600, 0).unwrap()
}

fn email() -> UnverifiedEmail {
    UnverifiedEmail::new("user@example.com").unwrap()
}

#[test]
fn domain_event_display_created() {
    let e = DomainEvent::from(UserEvent::Created(UserCreatedEvent {
        email: email(),
        username: "user123".to_string(),
        registered_at: fixed_time(),
    }));
    assert_eq!(e.to_string(), "UserEvent::Created");
}

#[test]
fn domain_event_display_suspended() {
    let e = DomainEvent::from(UserEvent::Suspended(UserSuspendedEvent {
        email: email(),
        username: "user123".to_string(),
        reason: "Violation of terms".to_string(),
        suspended_at: fixed_time(),
    }));
    assert_eq!(e.to_string(), "UserEvent::Suspended");
}

#[test]
fn domain_event_display_unlocked() {
    let e = DomainEvent::from(UserEvent::Unlocked(UserUnlockedEvent {
        username: "user123".to_string(),
        email: email(),
        unlocked_at: fixed_time(),
    }));
    assert_eq!(e.to_string(), "UserEvent::Unlocked");
}

#[test]
fn domain_event_display_deactivated() {
    let e = DomainEvent::from(UserEvent::Deactivated(UserDeactivatedEvent {
        username: "user123".to_string(),
        email: email(),
        deactivated_at: fixed_time(),
    }));
    assert_eq!(e.to_string(), "UserEvent::Deactivated");
    if let DomainEvent::UserEvent(inner) = &e {
        assert_eq!(inner.kind_name(), "Deactivated");
        assert_eq!(inner.created_at(), fixed_time());
    }
}
