use vstd::prelude::*;

use crate::auth::policy::{admin_only, AuthorizationContext, AuthorizationError, Policy};
use crate::user::role::UserRole;

verus! {

/// Listing users is about no user in particular.
#[derive(Clone, Copy)]
pub struct ListUsersPayload;

/// Only an administrator may list the users.
pub struct ListUsersPolicy(ListUsersPayload);

impl ListUsersPolicy {
    pub fn new(payload: ListUsersPayload) -> (r: ListUsersPolicy) {
        ListUsersPolicy(payload)
    }
}

impl Policy for ListUsersPolicy {
    fn check(&self, ctx: &AuthorizationContext) -> (r: Result<(), AuthorizationError>)
        ensures
            r == admin_only(*ctx),
    {
        match ctx.actor_role {
            UserRole::Admin => Ok(()),
            UserRole::User => Err(AuthorizationError::Forbidden),
        }
    }
}

} // verus!
