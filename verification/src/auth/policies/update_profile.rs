use vstd::prelude::*;

use crate::auth::policy::{admin_or_self, AuthorizationContext, AuthorizationError, Policy};
use crate::user::role::UserRole;
use crate::user::user_id::UserId;

verus! {

/// The user that the action is about.
#[derive(Clone, Copy)]
pub struct UpdateProfilePayload {
    pub target_id: UserId,
}

/// An administrator may update any user's profile; an ordinary user only its own.
pub struct UpdateProfilePolicy(UpdateProfilePayload);

impl UpdateProfilePolicy {
    /// What the policy decides about.
    pub closed spec fn payload(&self) -> UpdateProfilePayload {
        self.0
    }

    pub fn new(payload: UpdateProfilePayload) -> (r: UpdateProfilePolicy)
        ensures
            r.payload() == payload,
    {
        UpdateProfilePolicy(payload)
    }
}

impl Policy for UpdateProfilePolicy {
    fn check(&self, ctx: &AuthorizationContext) -> (r: Result<(), AuthorizationError>)
        ensures
            r == admin_or_self(*ctx, self.payload().target_id),
    {
        let target_id = self.0.target_id;
        match ctx.actor_role {
            UserRole::Admin => Ok(()),
            UserRole::User => {
                if ctx.actor_id == target_id {
                    Ok(())
                } else {
                    Err(AuthorizationError::Forbidden)
                }
            },
        }
    }
}

} // verus!
