use vstd::prelude::*;

use crate::time::Clock;
use crate::user::entity::{User, UserView};
use crate::user::error::UserDomainError;
use crate::user::password::HashedPassword;
use crate::user::service::{UniqueUserInfo, UserIdGenerationError, UserIdGenerator};

verus! {

/// Why a new user could not be made.
#[derive(Debug, PartialEq)]
pub enum UserCreationError {
    IdGenerationFailed(UserIdGenerationError),
    Domain(UserDomainError),
}

/// Makes new users, stamped with the time its clock tells.
pub struct UserFactory<C: Clock> {
    clock: C,
}

impl<C: Clock> UserFactory<C> {
    /// The factory's clock.
    pub closed spec fn spec_clock(&self) -> C {
        self.clock
    }

    pub fn new(clock: C) -> (r: UserFactory<C>)
        ensures
            r.spec_clock() == clock,
    {
        UserFactory { clock }
    }

    /// A newly registered user with the identifier that the generator gave,
    /// created now. The clock is read before the generator is asked; only the generator
    /// can fail.
    pub fn create_new_user<G: UserIdGenerator>(
        &self,
        user_id_generator: &G,
        user_info: UniqueUserInfo,
        password: HashedPassword,
    ) -> (r: Result<User, UserCreationError>)
        ensures
            r matches Ok(user) ==> user@ == UserView::registered(
                user@.id,
                user_info.spec_username(),
                user_info.spec_email(),
                password@,
                user@.created_at,
            ),
            r matches Ok(user) ==> user_id_generator.spec_issues(Ok(user@.id)),
            r matches Ok(user) ==> self.spec_clock().spec_reads(user@.created_at),
            r matches Err(e) ==> (e matches UserCreationError::IdGenerationFailed(g)
                && user_id_generator.spec_issues(Err(g))),
    {
        let now = self.clock.now();
        let user_id = match user_id_generator.generate() {
            Ok(id) => id,
            Err(e) => return Err(UserCreationError::IdGenerationFailed(e)),
        };
        match User::new(user_id, user_info, password, now) {
            Ok(user) => Ok(user),
            Err(e) => Err(UserCreationError::Domain(e)),
        }
    }
}

} // verus!
