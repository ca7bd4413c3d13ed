use domain::auth::policies::activate_user::{ActivateUserPayload, ActivateUserPolicy};
use domain::auth::policies::find_user_by_id::{FindUserByIdPayload, FindUserByIdPolicy};
use domain::auth::policies::list_users::ListUsersPayload;
use domain::auth::policies::promote_to_admin::PromoteToAdminPayload;
use domain::auth::policies::suspend_user::{SuspendUserPayload, SuspendUserPolicy};
use domain::auth::policies::unlock_user::UnlockUserPayload;
use domain::auth::policies::update_profile::UpdateProfilePayload;
use domain::auth::policies::view_own_profile::{ViewOwnProfilePayload, ViewOwnProfilePolicy};
use domain::auth::policies::view_profile::{ViewProfilePayload, ViewProfilePolicy};
use domain::auth::policies::view_public_profile::ViewPublicProfilePayload;
use domain::auth::{Actor, AuthorizationContext, AuthorizationError, AuthorizationService, Policy, UserAction};
use domain::time::UtcDateTime;
use domain::user::{HashedPassword, User, UserId, UserRole, UserUniquenessService};

struct Session {
    id: UserId,
    role: UserRole,
}

impl Actor for Session {
    fn spec_actor_id(&self) -> UserId {
        self.id
    }

    fn spec_actor_role(&self) -> UserRole {
        self.role
    }

    fn actor_id(&self) -> UserId {
        self.id
    }

    fn actor_role(&self) -> UserRole {
        self.role
    }
}

fn admin() -> Session {
    Session { id: UserId::from_u128(1), role: UserRole::Admin }
}

fn member() -> Session {
    Session { id: UserId::from_u128(2), role: UserRole::User }
}

#[test]
fn nobody_suspends_itself() {
    let action = UserAction::SuspendUser(SuspendUserPayload { target_id: UserId::from_u128(1), target_role: UserRole::User });
    assert_eq!(AuthorizationService::can(&admin(), action), Err(AuthorizationError::CannotSuspendSelf));
}

#[test]
fn administrators_are_not_suspended() {
    let action = UserAction::SuspendUser(SuspendUserPayload { target_id: UserId::from_u128(3), target_role: UserRole::Admin });
    assert_eq!(AuthorizationService::can(&admin(), action), Err(AuthorizationError::CannotSuspendAdmin));
    assert_eq!(AuthorizationService::can(&member(), action), Err(AuthorizationError::CannotSuspendAdmin));
}

#[test]
fn only_administrators_suspend() {
    let action = UserAction::SuspendUser(SuspendUserPayload { target_id: UserId::from_u128(3), target_role: UserRole::User });
    assert_eq!(AuthorizationService::can(&admin(), action), Ok(()));
    assert_eq!(AuthorizationService::can(&member(), action), Err(AuthorizationError::Forbidden));
}

#[test]
fn unlocking_rules() {
    let own = UserAction::UnlockUser(UnlockUserPayload { target_id: UserId::from_u128(1) });
    assert_eq!(AuthorizationService::can(&admin(), own), Err(AuthorizationError::CannotUnlockSelf));
    let other = UserAction::UnlockUser(UnlockUserPayload { target_id: UserId::from_u128(3) });
    assert_eq!(AuthorizationService::can(&admin(), other), Ok(()));
    assert_eq!(AuthorizationService::can(&member(), other), Err(AuthorizationError::Forbidden));
}

#[test]
fn members_act_on_themselves_only() {
    let own = UserAction::UpdateProfile(UpdateProfilePayload { target_id: UserId::from_u128(2) });
    let other = UserAction::UpdateProfile(UpdateProfilePayload { target_id: UserId::from_u128(3) });
    assert_eq!(AuthorizationService::can(&member(), own), Ok(()));
    assert_eq!(AuthorizationService::can(&member(), other), Err(AuthorizationError::Forbidden));
    assert_eq!(AuthorizationService::can(&admin(), other), Ok(()));
}

#[test]
fn administrator_only_actions() {
    let promote = UserAction::PromoteToAdmin(PromoteToAdminPayload { target_id: UserId::from_u128(2) });
    let list = UserAction::ListUsers(ListUsersPayload);
    assert_eq!(AuthorizationService::can(&admin(), promote), Ok(()));
    assert_eq!(AuthorizationService::can(&member(), promote), Err(AuthorizationError::Forbidden));
    assert_eq!(AuthorizationService::can(&admin(), list), Ok(()));
    assert_eq!(AuthorizationService::can(&member(), list), Err(AuthorizationError::Forbidden));
}

#[test]
fn public_profiles_are_open_to_all() {
    let view = UserAction::ViewPublicProfile(ViewPublicProfilePayload);
    assert_eq!(AuthorizationService::can(&member(), view), Ok(()));
    assert_eq!(AuthorizationService::can(&admin(), view), Ok(()));
}

#[test]
fn authorize_decides_from_the_context() {
    let ctx = AuthorizationContext {
        actor_id: UserId::from_u128(2),
        actor_role: UserRole::User,
        action: UserAction::ActivateUser(ActivateUserPayload { target_id: UserId::from_u128(2) }),
    };
    assert_eq!(AuthorizationService::authorize(&ctx), Ok(()));
    assert_eq!(ActivateUserPolicy::new(ActivateUserPayload { target_id: UserId::from_u128(4) }).check(&ctx), Err(AuthorizationError::Forbidden));
    assert_eq!(FindUserByIdPolicy::new(FindUserByIdPayload { target_id: UserId::from_u128(2) }).check(&ctx), Ok(()));
    assert_eq!(
        SuspendUserPolicy::new(SuspendUserPayload { target_id: UserId::from_u128(2), target_role: UserRole::User }).check(&ctx),
        Err(AuthorizationError::CannotSuspendSelf)
    );
}

#[test]
fn profile_policies_on_users() {
    let service = UserUniquenessService::new(());
    let info = service.ensure_unique("erin", false, "erin@example.com", false).unwrap();
    let t = UtcDateTime::from_timestamp(0, 0).unwrap();
    let erin = User::new(UserId::from_u128(2), info, HashedPassword::from_raw_str("h"), t).unwrap();
    let ctx_self = AuthorizationContext {
        actor_id: UserId::from_u128(2),
        actor_role: UserRole::User,
        action: UserAction::ListUsers(ListUsersPayload),
    };
    let ctx_other = AuthorizationContext { actor_id: UserId::from_u128(9), ..ctx_self };
    let own = ViewOwnProfilePolicy::new(ViewOwnProfilePayload { target: &erin });
    assert_eq!(own.check(&ctx_self), Ok(()));
    assert_eq!(own.check(&ctx_other), Err(AuthorizationError::Forbidden));
    let any = ViewProfilePolicy::new(ViewProfilePayload { target: &erin });
    assert_eq!(any.check(&ctx_other), Ok(()));
}

#[test]
fn authorization_messages_for_clients() {
    assert_eq!(AuthorizationError::Forbidden.message_for_client(), "権限がありません");
    assert_eq!(AuthorizationError::CannotSuspendSelf.message_for_client(), "自分自身を利用停止にすることはできません");
    assert_eq!(AuthorizationError::CannotUnlockSelf.message_for_client(), "自分自身のロック解除はできません");
    assert_eq!(AuthorizationError::CannotSuspendAdmin.message_for_client(), "管理者を管理者が停止することはできません");
}
