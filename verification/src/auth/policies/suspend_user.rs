use vstd::prelude::*;

use crate::auth::policy::{suspension_decision, AuthorizationContext, AuthorizationError, Policy};
use crate::user::role::UserRole;
use crate::user::user_id::UserId;

verus! {

/// The user to suspend, with its role.
#[derive(Clone, Copy)]
pub struct SuspendUserPayload {
    pub target_id: UserId,
    pub target_role: UserRole,
}

/// An administrator may suspend any other user who is not an administrator.
pub struct SuspendUserPolicy(SuspendUserPayload);

impl SuspendUserPolicy {
    /// What the policy decides about.
    pub closed spec fn payload(&self) -> SuspendUserPayload {
        self.0
    }

    pub fn new(payload: SuspendUserPayload) -> (r: SuspendUserPolicy)
        ensures
            r.payload() == payload,
    {
        SuspendUserPolicy(payload)
    }
}

impl Policy for SuspendUserPolicy {
    fn check(&self, ctx: &AuthorizationContext) -> (r: Result<(), AuthorizationError>)
        ensures
            r == suspension_decision(*ctx, self.payload().target_id, self.payload().target_role),
    {
        let target_id = self.0.target_id;
        let target_role = self.0.target_role;
        if ctx.actor_id == target_id {
            return Err(AuthorizationError::CannotSuspendSelf);
        }
        if target_role == UserRole::Admin {
            return Err(AuthorizationError::CannotSuspendAdmin);
        }
        match ctx.actor_role {
            UserRole::Admin => Ok(()),
            UserRole::User => Err(AuthorizationError::Forbidden),
        }
    }
}

} // verus!
