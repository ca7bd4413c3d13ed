use domain::user::{
    EmailFormatError, EmailTrait, UnverifiedEmail, User, UserReconstructionError, UserRole,
    UserState, UserStateKind, UserStateRaw, VerifiedEmail, HashedPassword, UserId,
};
use domain::time::UtcDateTime;

fn raw(status: &str, email: &str) -> UserStateRaw {
    UserStateRaw { status: status.to_string(), email: email.to_string() }
}

#[test]
fn try_from_rebuilds_every_state() {
    let cases = vec![
        ("active", UserState::Active { email: VerifiedEmail::new("valid@email.com").unwrap() }),
        (
            "suspended_by_admin",
            UserState::SuspendedByAdmin { email: UnverifiedEmail::new("valid@email.com").unwrap() },
        ),
        (
            "deactivated_by_user",
            UserState::DeactivatedByUser { email: UnverifiedEmail::new("valid@email.com").unwrap() },
        ),
        (
            "pending_verification",
            UserState::PendingVerification {
                email: UnverifiedEmail::new("valid@email.com").unwrap(),
            },
        ),
        (
            "active_with_unverified_email",
            UserState::ActiveWithUnverifiedEmail {
                email: UnverifiedEmail::new("valid@email.com").unwrap(),
            },
        ),
    ];
    for (status, expected) in cases {
        let state = UserState::try_from(raw(status, "valid@email.com")).unwrap();
        assert_eq!(state, expected);
        assert_eq!(state.kind(), status);
    }
}

#[test]
fn try_from_rejects_unknown_status() {
    for status in ["invalid_status", ""] {
        let result = UserState::try_from(raw(status, "valid@email.com"));
        assert_eq!(
            result.unwrap_err(),
            UserReconstructionError::InvalidStatus { invalid_status: status.to_string() }
        );
    }
}

#[test]
fn try_from_rejects_malformed_address() {
    for status in [
        "active",
        "suspended_by_admin",
        "deactivated_by_user",
        "pending_verification",
        "active_with_unverified_email",
    ] {
        match UserState::try_from(raw(status, "invalid_email")) {
            Err(UserReconstructionError::InvalidEmail(EmailFormatError::InvalidFormat {
                invalid_email,
            })) => assert_eq!(invalid_email, "invalid_email"),
            _ => panic!("expected an invalid e-mail error"),
        }
    }
}

#[test]
fn state_kind_names_round_trip() {
    for kind in [
        UserStateKind::Active,
        UserStateKind::SuspendedByAdmin,
        UserStateKind::DeactivatedByUser,
        UserStateKind::PendingVerification,
        UserStateKind::ActiveWithUnverifiedEmail,
    ] {
        assert_eq!(UserStateKind::parse(kind.as_str()), Some(kind));
        assert_eq!(kind.to_string(), kind.as_str());
    }
    assert_eq!(UserStateKind::parse("Active"), None);
}

#[test]
fn user_role_from_str_success() {
    assert_eq!(UserRole::from_str("admin").unwrap(), UserRole::Admin);
    assert_eq!(UserRole::from_str("user").unwrap(), UserRole::User);
}

#[test]
fn user_role_from_str_failure() {
    for input in ["invalid_role", ""] {
        assert_eq!(
            UserRole::from_str(input),
            Err(UserReconstructionError::InvalidRole { invalid_role: input.to_string() })
        );
    }
}

#[test]
fn user_role_to_string() {
    assert_eq!(UserRole::Admin.to_string(), "admin");
    assert_eq!(UserRole::User.to_string(), "user");
    assert_eq!(UserRole::default(), UserRole::User);
}

#[test]
fn reconstruct_rebuilds_a_stored_user() {
    let t = UtcDateTime::from_timestamp(10, 0).unwrap();
    let user = User::reconstruct(
        UserId::from_u128(5),
        "dave".to_string(),
        HashedPassword::from_raw_str("h"),
        "admin",
        raw("suspended_by_admin", "dave@example.com"),
        t,
        t,
    )
    .unwrap();
    assert_eq!(user.role(), UserRole::Admin);
    assert_eq!(user.state().kind_raw(), UserStateKind::SuspendedByAdmin);
    assert_eq!(user.email().as_str(), "dave@example.com");
}

#[test]
fn reconstruct_checks_the_state_before_the_role() {
    let t = UtcDateTime::from_timestamp(10, 0).unwrap();
    let result = User::reconstruct(
        UserId::from_u128(5),
        "dave".to_string(),
        HashedPassword::from_raw_str("h"),
        "wizard",
        raw("sleeping", "dave@example.com"),
        t,
        t,
    );
    assert!(matches!(result, Err(UserReconstructionError::InvalidStatus { .. })));
    let result = User::reconstruct(
        UserId::from_u128(5),
        "dave".to_string(),
        HashedPassword::from_raw_str("h"),
        "wizard",
        raw("active", "dave@example.com"),
        t,
        t,
    );
    assert!(matches!(result, Err(UserReconstructionError::InvalidRole { .. })));
}
