use vstd::prelude::*;

use crate::auth::policy::{unlock_decision, AuthorizationContext, AuthorizationError, Policy};
use crate::user::role::UserRole;
use crate::user::user_id::UserId;

verus! {

/// The user to unlock.
#[derive(Clone, Copy)]
pub struct UnlockUserPayload {
    pub target_id: UserId,
}

/// An administrator may unlock any other user.
pub struct UnlockUserPolicy(UnlockUserPayload);

impl UnlockUserPolicy {
    /// What the policy decides about.
    pub closed spec fn payload(&self) -> UnlockUserPayload {
        self.0
    }

    pub fn new(payload: UnlockUserPayload) -> (r: UnlockUserPolicy)
        ensures
            r.payload() == payload,
    {
        UnlockUserPolicy(payload)
    }
}

impl Policy for UnlockUserPolicy {
    fn check(&self, ctx: &AuthorizationContext) -> (r: Result<(), AuthorizationError>)
        ensures
            r == unlock_decision(*ctx, self.payload().target_id),
    {
        let target_id = self.0.target_id;
        if ctx.actor_id == target_id {
            return Err(AuthorizationError::CannotUnlockSelf);
        }
        match ctx.actor_role {
            UserRole::Admin => Ok(()),
            UserRole::User => Err(AuthorizationError::Forbidden),
        }
    }
}

} // verus!
