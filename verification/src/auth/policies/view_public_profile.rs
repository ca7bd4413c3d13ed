use vstd::prelude::*;

use crate::auth::policy::{AuthorizationContext, AuthorizationError, Policy};

verus! {

/// Viewing public profiles is about no user in particular.
#[derive(Clone, Copy)]
pub struct ViewPublicProfilePayload;

/// Any signed-in user may view any user's public profile.
pub struct ViewPublicProfilePolicy(ViewPublicProfilePayload);

impl ViewPublicProfilePolicy {
    pub fn new(payload: ViewPublicProfilePayload) -> (r: ViewPublicProfilePolicy) {
        ViewPublicProfilePolicy(payload)
    }
}

impl Policy for ViewPublicProfilePolicy {
    fn check(&self, ctx: &AuthorizationContext) -> (r: Result<(), AuthorizationError>)
        ensures
            r == Ok::<(), AuthorizationError>(()),
    {
        Ok(())
    }
}

} // verus!
