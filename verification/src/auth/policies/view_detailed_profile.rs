use vstd::prelude::*;

use crate::auth::policy::{admin_or_self, AuthorizationContext, AuthorizationError, Policy};
use crate::user::role::UserRole;
use crate::user::user_id::UserId;

verus! {

/// The user that the action is about.
#[derive(Clone, Copy)]
pub struct ViewDetailedProfilePayload {
    pub target_id: UserId,
}

/// An administrator may see any user's detailed profile; an ordinary user only its own.
pub struct ViewDetailedProfilePolicy(ViewDetailedProfilePayload);

impl ViewDetailedProfilePolicy {
    /// What the policy decides about.
    pub closed spec fn payload(&self) -> ViewDetailedProfilePayload {
        self.0
    }

    pub fn new(payload: ViewDetailedProfilePayload) -> (r: ViewDetailedProfilePolicy)
        ensures
            r.payload() == payload,
    {
        ViewDetailedProfilePolicy(payload)
    }
}

impl Policy for ViewDetailedProfilePolicy {
    fn check(&self, ctx: &AuthorizationContext) -> (r: Result<(), AuthorizationError>)
        ensures
            r == admin_or_self(*ctx, self.payload().target_id),
    {
        let target_id = self.0.target_id;
        match ctx.actor_role {
            UserRole::Admin => Ok(()),
            UserRole::User => {
                if ctx.actor_id == target_id {
                    Ok(())
                } else {
                    Err(AuthorizationError::Forbidden)
                }
            },
        }
    }
}

} // verus!
