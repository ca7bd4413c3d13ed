use vstd::prelude::*;

use crate::auth::policy::{admin_only, AuthorizationContext, AuthorizationError, Policy};
use crate::user::role::UserRole;
use crate::user::user_id::UserId;

verus! {

/// The user that the action is about.
#[derive(Clone, Copy)]
pub struct PromoteToAdminPayload {
    pub target_id: UserId,
}

/// Only an administrator may make a user an administrator.
pub struct PromoteToAdminPolicy(PromoteToAdminPayload);

impl PromoteToAdminPolicy {
    /// What the policy decides about.
    pub closed spec fn payload(&self) -> PromoteToAdminPayload {
        self.0
    }

    pub fn new(payload: PromoteToAdminPayload) -> (r: PromoteToAdminPolicy)
        ensures
            r.payload() == payload,
    {
        PromoteToAdminPolicy(payload)
    }
}

impl Policy for PromoteToAdminPolicy {
    fn check(&self, ctx: &AuthorizationContext) -> (r: Result<(), AuthorizationError>)
        ensures
            r == admin_only(*ctx),
    {
        match ctx.actor_role {
            UserRole::Admin => Ok(()),
            UserRole::User => Err(AuthorizationError::Forbidden),
        }
    }
}

} // verus!
