use vstd::prelude::*;

use crate::auth::policy::{admin_or_self, AuthorizationContext, AuthorizationError, Policy};
use crate::user::role::UserRole;
use crate::user::user_id::UserId;

verus! {

/// The user that the action is about.
#[derive(Clone, Copy)]
pub struct DeactivateUserPayload {
    pub target_id: UserId,
}

/// An administrator may deactivate any user; an ordinary user only itself.
pub struct DeactivateUserPolicy(DeactivateUserPayload);

impl DeactivateUserPolicy {
    /// What the policy decides about.
    pub closed spec fn payload(&self) -> DeactivateUserPayload {
        self.0
    }

    pub fn new(payload: DeactivateUserPayload) -> (r: DeactivateUserPolicy)
        ensures
            r.payload() == payload,
    {
        DeactivateUserPolicy(payload)
    }
}

impl Policy for DeactivateUserPolicy {
    fn check(&self, ctx: &AuthorizationContext) -> (r: Result<(), AuthorizationError>)
        ensures
            r == admin_or_self(*ctx, self.payload().target_id),
    {
        let target_id = self.0.target_id;
        match ctx.actor_role {
            UserRole::Admin => Ok(()),
            UserRole::User => {
                if ctx.actor_id == target_id {
                    Ok(())
                } else {
                    Err(AuthorizationError::Forbidden)
                }
            },
        }
    }
}

} // verus!
