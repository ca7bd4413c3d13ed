use vstd::prelude::*;

use crate::auth::policy::{AuthorizationContext, AuthorizationError, Policy};
use crate::user::entity::User;

verus! {

/// The user whose profile is viewed.
#[derive(Clone, Copy)]
pub struct ViewOwnProfilePayload<'a> {
    pub target: &'a User,
}

/// Any signed-in user may view its own profile, and no other.
pub struct ViewOwnProfilePolicy<'a>(ViewOwnProfilePayload<'a>);

impl<'a> ViewOwnProfilePolicy<'a> {
    /// What the policy decides about.
    pub closed spec fn payload(&self) -> ViewOwnProfilePayload<'a> {
        self.0
    }

    pub fn new(payload: ViewOwnProfilePayload<'a>) -> (r: ViewOwnProfilePolicy<'a>)
        ensures
            r.payload() == payload,
    {
        ViewOwnProfilePolicy(payload)
    }
}

impl<'a> Policy for ViewOwnProfilePolicy<'a> {
    fn check(&self, ctx: &AuthorizationContext) -> (r: Result<(), AuthorizationError>)
        ensures
            r == if ctx.actor_id == self.payload().target@.id {
                Ok::<(), AuthorizationError>(())
            } else {
                Err(AuthorizationError::Forbidden)
            },
    {
        let target = self.0.target;
        if ctx.actor_id == target.id() {
            Ok(())
        } else {
            Err(AuthorizationError::Forbidden)
        }
    }
}

} // verus!
