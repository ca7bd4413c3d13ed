use vstd::prelude::*;

use crate::auth::policy::{admin_or_self, AuthorizationContext, AuthorizationError, Policy};
use crate::user::role::UserRole;
use crate::user::user_id::UserId;

verus! {

/// The user that the action is about.
#[derive(Clone, Copy)]
pub struct FindUserByIdPayload {
    pub target_id: UserId,
}

/// An administrator may look up any user by identifier; an ordinary user only itself.
pub struct FindUserByIdPolicy(FindUserByIdPayload);

impl FindUserByIdPolicy {
    /// What the policy decides about.
    pub closed spec fn payload(&self) -> FindUserByIdPayload {
        self.0
    }

    pub fn new(payload: FindUserByIdPayload) -> (r: FindUserByIdPolicy)
        ensures
            r.payload() == payload,
    {
        FindUserByIdPolicy(payload)
    }
}

impl Policy for FindUserByIdPolicy {
    fn check(&self, ctx: &AuthorizationContext) -> (r: Result<(), AuthorizationError>)
        ensures
            r == admin_or_self(*ctx, self.payload().target_id),
    {
        let target_id = self.0.target_id;
        match ctx.actor_role {
            UserRole::Admin => Ok(()),
            UserRole::User => {
                if ctx.actor_id == target_id {
                    Ok(())
                } else {
                    Err(AuthorizationError::Forbidden)
                }
            },
        }
    }
}

} // verus!
