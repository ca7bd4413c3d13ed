use vstd::prelude::*;

use crate::auth::policies::activate_user::{ActivateUserPayload, ActivateUserPolicy};
use crate::auth::policies::change_email::{ChangeEmailPayload, ChangeEmailPolicy};
use crate::auth::policies::deactivate_user::{DeactivateUserPayload, DeactivateUserPolicy};
use crate::auth::policies::find_user_by_id_for_suspend::{
    FindUserByIdForSuspendPayload, FindUserByIdForSuspendPolicy,
};
use crate::auth::policies::list_users::{ListUsersPayload, ListUsersPolicy};
use crate::auth::policies::promote_to_admin::{PromoteToAdminPayload, PromoteToAdminPolicy};
use crate::auth::policies::suspend_user::{SuspendUserPayload, SuspendUserPolicy};
use crate::auth::policies::unlock_user::{UnlockUserPayload, UnlockUserPolicy};
use crate::auth::policies::update_profile::{UpdateProfilePayload, UpdateProfilePolicy};
use crate::auth::policies::view_detailed_profile::{
    ViewDetailedProfilePayload, ViewDetailedProfilePolicy,
};
use crate::auth::policies::view_public_profile::{ViewPublicProfilePayload, ViewPublicProfilePolicy};
use crate::user::role::UserRole;
use crate::user::user_id::UserId;

verus! {

/// The actions on users that need authorization, each with what it is about.
#[derive(Clone, Copy)]
pub enum UserAction {
    SuspendUser(SuspendUserPayload),
    UnlockUser(UnlockUserPayload),
    DeactivateUser(DeactivateUserPayload),
    ActivateUser(ActivateUserPayload),
    PromoteToAdmin(PromoteToAdminPayload),
    ListUsers(ListUsersPayload),
    ViewPublicProfile(ViewPublicProfilePayload),
    ViewDetailedProfile(ViewDetailedProfilePayload),
    FindUserByIdForSuspend(FindUserByIdForSuspendPayload),
    UpdateProfile(UpdateProfilePayload),
    ChangeEmail(ChangeEmailPayload),
}

/// Who asks to do what.
#[derive(Clone, Copy)]
pub struct AuthorizationContext {
    pub actor_id: UserId,
    pub actor_role: UserRole,
    pub action: UserAction,
}

/// Why an action is refused.
#[derive(Debug, Clone, Copy, PartialEq, Eq, Structural)]
pub enum AuthorizationError {
    Forbidden,
    CannotSuspendSelf,
    CannotUnlockSelf,
    CannotSuspendAdmin,
}

impl AuthorizationError {
    /// The message shown to clients for this error.
    pub fn message_for_client(&self) -> (r: &'static str)
        ensures
            r@ == match self {
                AuthorizationError::Forbidden => "権限がありません"@,
                AuthorizationError::CannotSuspendSelf => "自分自身を利用停止にすることはできません"@,
                AuthorizationError::CannotUnlockSelf => "自分自身のロック解除はできません"@,
                AuthorizationError::CannotSuspendAdmin => "管理者を管理者が停止することはできません"@,
            },
    {
        match self {
            AuthorizationError::Forbidden => "権限がありません",
            AuthorizationError::CannotSuspendSelf => "自分自身を利用停止にすることはできません",
            AuthorizationError::CannotUnlockSelf => "自分自身のロック解除はできません",
            AuthorizationError::CannotSuspendAdmin => "管理者を管理者が停止することはできません",
        }
    }
}

/// Administrators may act on any user; an ordinary user only on itself.
pub open spec fn admin_or_self(ctx: AuthorizationContext, target_id: UserId) -> Result<
    (),
    AuthorizationError,
> {
    match ctx.actor_role {
        UserRole::Admin => Ok(()),
        UserRole::User => if ctx.actor_id == target_id {
            Ok(())
        } else {
            Err(AuthorizationError::Forbidden)
        },
    }
}

/// Only administrators may act.
pub open spec fn admin_only(ctx: AuthorizationContext) -> Result<(), AuthorizationError> {
    match ctx.actor_role {
        UserRole::Admin => Ok(()),
        UserRole::User => Err(AuthorizationError::Forbidden),
    }
}

/// An administrator may suspend any other user who is not an administrator. No
/// one may suspend itself; that is checked first, then that the target is no
/// administrator, then the actor's role.
pub open spec fn suspension_decision(
    ctx: AuthorizationContext,
    target_id: UserId,
    target_role: UserRole,
) -> Result<(), AuthorizationError> {
    if ctx.actor_id == target_id {
        Err(AuthorizationError::CannotSuspendSelf)
    } else if target_role == UserRole::Admin {
        Err(AuthorizationError::CannotSuspendAdmin)
    } else {
        admin_only(ctx)
    }
}

/// An administrator may unlock any other user. No one may unlock itself; that
/// is checked before the actor's role.
pub open spec fn unlock_decision(ctx: AuthorizationContext, target_id: UserId) -> Result<
    (),
    AuthorizationError,
> {
    if ctx.actor_id == target_id {
        Err(AuthorizationError::CannotUnlockSelf)
    } else {
        admin_only(ctx)
    }
}

/// Whether the actor of `ctx` may do its action, and if not, why.
pub open spec fn authorization_decision(ctx: AuthorizationContext) -> Result<(), AuthorizationError> {
    match ctx.action {
        UserAction::SuspendUser(p) => suspension_decision(ctx, p.target_id, p.target_role),
        UserAction::UnlockUser(p) => unlock_decision(ctx, p.target_id),
        UserAction::DeactivateUser(p) => admin_or_self(ctx, p.target_id),
        UserAction::ActivateUser(p) => admin_or_self(ctx, p.target_id),
        UserAction::PromoteToAdmin(_) => admin_only(ctx),
        UserAction::ListUsers(_) => admin_only(ctx),
        UserAction::ViewPublicProfile(_) => Ok(()),
        UserAction::ViewDetailedProfile(p) => admin_or_self(ctx, p.target_id),
        UserAction::FindUserByIdForSuspend(p) => admin_or_self(ctx, p.target_id),
        UserAction::UpdateProfile(p) => admin_or_self(ctx, p.target_id),
        UserAction::ChangeEmail(p) => admin_or_self(ctx, p.target_id),
    }
}

/// No one may suspend or unlock itself, whatever its role, and no one may
/// suspend an administrator.
pub proof fn lemma_no_self_suspension(actor_id: UserId, actor_role: UserRole, target_role: UserRole)
    ensures
        authorization_decision(
            AuthorizationContext {
                actor_id,
                actor_role,
                action: UserAction::SuspendUser(SuspendUserPayload { target_id: actor_id, target_role }),
            },
        ) == Err::<(), _>(AuthorizationError::CannotSuspendSelf),
        authorization_decision(
            AuthorizationContext {
                actor_id,
                actor_role,
                action: UserAction::UnlockUser(UnlockUserPayload { target_id: actor_id }),
            },
        ) == Err::<(), _>(AuthorizationError::CannotUnlockSelf),
        forall|target_id: UserId|
            target_id != actor_id ==> #[trigger] authorization_decision(
                AuthorizationContext {
                    actor_id,
                    actor_role,
                    action: UserAction::SuspendUser(
                        SuspendUserPayload { target_id, target_role: UserRole::Admin },
                    ),
                },
            ) == Err::<(), _>(AuthorizationError::CannotSuspendAdmin),
{
}

/// An administrator may do every action, except suspending itself or another
/// administrator and unlocking itself.
pub proof fn lemma_admin_grants(actor_id: UserId, action: UserAction)
    ensures
        authorization_decision(
            AuthorizationContext { actor_id, actor_role: UserRole::Admin, action },
        ) is Ok <==> match action {
            UserAction::SuspendUser(p) => p.target_id != actor_id && p.target_role != UserRole::Admin,
            UserAction::UnlockUser(p) => p.target_id != actor_id,
            _ => true,
        },
{
}

/// An ordinary user may view public profiles, and may deactivate, activate,
/// update, look up for a suspension or view in detail only itself, and change
/// only its own address; it may do nothing else.
pub proof fn lemma_user_grants(actor_id: UserId, action: UserAction)
    ensures
        authorization_decision(
            AuthorizationContext { actor_id, actor_role: UserRole::User, action },
        ) is Ok <==> match action {
            UserAction::ViewPublicProfile(_) => true,
            UserAction::DeactivateUser(p) => p.target_id == actor_id,
            UserAction::ActivateUser(p) => p.target_id == actor_id,
            UserAction::ViewDetailedProfile(p) => p.target_id == actor_id,
            UserAction::FindUserByIdForSuspend(p) => p.target_id == actor_id,
            UserAction::UpdateProfile(p) => p.target_id == actor_id,
            UserAction::ChangeEmail(p) => p.target_id == actor_id,
            _ => false,
        },
{
}

/// A rule that grants or refuses an action.
pub trait Policy {
    fn check(&self, ctx: &AuthorizationContext) -> Result<(), AuthorizationError>;
}

/// Someone who acts: a user with an identifier and a role.
pub trait Actor {
    /// The actor's identifier.
    spec fn spec_actor_id(&self) -> UserId;

    /// The actor's role.
    spec fn spec_actor_role(&self) -> UserRole;

    fn actor_id(&self) -> (r: UserId)
        ensures
            r == self.spec_actor_id(),
    ;

    fn actor_role(&self) -> (r: UserRole)
        ensures
            r == self.spec_actor_role(),
    ;
}

/// Decides whether actors may do actions, by the policy of each action.
pub struct AuthorizationService;

impl AuthorizationService {
    /// Whether the actor of `ctx` may do its action, by the action's policy.
    pub fn authorize(ctx: &AuthorizationContext) -> (r: Result<(), AuthorizationError>)
        ensures
            r == authorization_decision(*ctx),
    {
        match ctx.action {
            UserAction::SuspendUser(payload) => SuspendUserPolicy::new(payload).check(ctx),
            UserAction::UnlockUser(payload) => UnlockUserPolicy::new(payload).check(ctx),
            UserAction::DeactivateUser(payload) => DeactivateUserPolicy::new(payload).check(ctx),
            UserAction::ActivateUser(payload) => ActivateUserPolicy::new(payload).check(ctx),
            UserAction::PromoteToAdmin(payload) => PromoteToAdminPolicy::new(payload).check(ctx),
            UserAction::ListUsers(payload) => ListUsersPolicy::new(payload).check(ctx),
            UserAction::ViewDetailedProfile(payload) => ViewDetailedProfilePolicy::new(
                payload,
            ).check(ctx),
            UserAction::ViewPublicProfile(payload) => ViewPublicProfilePolicy::new(payload).check(
                ctx,
            ),
            UserAction::FindUserByIdForSuspend(payload) => FindUserByIdForSuspendPolicy::new(
                payload,
            ).check(ctx),
            UserAction::UpdateProfile(payload) => UpdateProfilePolicy::new(payload).check(ctx),
            UserAction::ChangeEmail(payload) => ChangeEmailPolicy::new(payload).check(ctx),
        }
    }

    /// Whether the actor may do the action, by the action's policy, for the
    /// actor's identifier and role.
    pub fn can<A: Actor>(actor: &A, action: UserAction) -> (r: Result<(), AuthorizationError>)
        ensures
            r == authorization_decision(
                AuthorizationContext {
                    actor_id: actor.spec_actor_id(),
                    actor_role: actor.spec_actor_role(),
                    action,
                },
            ),
    {
        let actor_id = actor.actor_id();
        let actor_role = actor.actor_role();
        let ctx = AuthorizationContext { actor_id, actor_role, action };
        AuthorizationService::authorize(&ctx)
    }
}

} // verus!
