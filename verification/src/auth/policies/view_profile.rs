use vstd::prelude::*;

use crate::auth::policy::{AuthorizationContext, AuthorizationError, Policy};
use crate::user::entity::User;

verus! {

/// The user whose profile is viewed.
#[derive(Clone, Copy)]
pub struct ViewProfilePayload<'a> {
    pub target: &'a User,
}

/// Any signed-in user may view any user's profile.
pub struct ViewProfilePolicy<'a>(ViewProfilePayload<'a>);

impl<'a> ViewProfilePolicy<'a> {
    /// What the policy decides about.
    pub closed spec fn payload(&self) -> ViewProfilePayload<'a> {
        self.0
    }

    pub fn new(payload: ViewProfilePayload<'a>) -> (r: ViewProfilePolicy<'a>)
        ensures
            r.payload() == payload,
    {
        ViewProfilePolicy(payload)
    }
}

impl<'a> Policy for ViewProfilePolicy<'a> {
    fn check(&self, ctx: &AuthorizationContext) -> (r: Result<(), AuthorizationError>)
        ensures
            r == Ok::<(), AuthorizationError>(()),
    {
        Ok(())
    }
}

} // verus!
