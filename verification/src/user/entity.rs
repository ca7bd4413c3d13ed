use vstd::prelude::*;

use crate::entity::EntityTrait;
use vstd::std_specs::cmp::PartialEqSpec;
use crate::shared::domain_event::{DomainEvent, DomainEventView};
use crate::shared::outbox_event::{EntityWithEvents, OutboxEvent, OutboxEventStatus};
use crate::text::str_eq;
use crate::time::{Clock, UtcDateTime};
use crate::user::email::{Email, EmailTrait, EmailView, VerifiedEmail};
use crate::user::error::{
    ModificationWithInvalidStateError, UserDomainError, UserReconstructionError,
    UserStateTransitionError,
};
use crate::user::events::{
    UserCreatedEvent, UserDeactivatedEvent, UserEmailChangedEvent, UserEmailVerifiedEvent,
    UserEvent, UserEventView, UserReactivatedEvent, UserSuspendedEvent, UserUnlockedEvent,
    UsernameChangedEvent,
};
use crate::user::password::HashedPassword;
use crate::user::role::UserRole;
use crate::user::service::{EmailVerifier, UniqueEmail, UniqueUserInfo, UniqueUsername};
use crate::user::state::{UserState, UserStateKind, UserStateRaw, UserStateView};
use crate::user::user_id::UserId;

verus! {

/// A user account, with the events that happened to it and have not been
/// handed out yet. Two users are the same user when their identifiers are equal.
pub struct User {
    id: UserId,
    username: String,
    password: HashedPassword,
    role: UserRole,
    state: UserState,
    created_at: UtcDateTime,
    updated_at: UtcDateTime,
    events: Vec<UserEvent>,
}

/// The model of a [`User`].
pub struct UserView {
    pub id: UserId,
    pub username: Seq<char>,
    pub password: Seq<char>,
    pub role: UserRole,
    pub state: UserStateView,
    pub created_at: UtcDateTime,
    pub updated_at: UtcDateTime,
    pub events: Seq<UserEventView>,
}

pub open spec fn event_views(events: Seq<UserEvent>) -> Seq<UserEventView> {
    events.map_values(|e: UserEvent| e@)
}

impl View for User {
    type V = UserView;

    closed spec fn view(&self) -> UserView {
        UserView {
            id: self.id,
            username: self.username@,
            password: self.password@,
            role: self.role,
            state: self.state@,
            created_at: self.created_at,
            updated_at: self.updated_at,
            events: event_views(self.events@),
        }
    }
}

impl UserView {
    /// The user's e-mail address, verified exactly when the user is active.
    pub open spec fn email(self) -> EmailView {
        EmailView {
            verified: self.state.kind == UserStateKind::Active,
            address: self.state.email,
        }
    }

    /// A user just registered.
    pub open spec fn registered(
        id: UserId,
        username: Seq<char>,
        email: Seq<char>,
        password: Seq<char>,
        now: UtcDateTime,
    ) -> UserView {
        UserView {
            id,
            username,
            password,
            role: UserRole::User,
            state: UserStateView { kind: UserStateKind::PendingVerification, email },
            created_at: now,
            updated_at: now,
            events: seq![UserEventView::Created { email, username, registered_at: now }],
        }
    }

    /// The user moved to the state `kind` with address `email` at `now`, with
    /// `event` recorded.
    pub open spec fn moved_to(
        self,
        kind: UserStateKind,
        email: Seq<char>,
        now: UtcDateTime,
        event: UserEventView,
    ) -> UserView {
        UserView {
            state: UserStateView { kind, email },
            updated_at: now,
            events: self.events.push(event),
            ..self
        }
    }

    /// The user suspended by an administrator at `now`.
    pub open spec fn suspended(self, reason: Seq<char>, now: UtcDateTime) -> UserView {
        self.moved_to(
            UserStateKind::SuspendedByAdmin,
            self.state.email,
            now,
            UserEventView::Suspended {
                username: self.username,
                email: self.state.email,
                reason,
                suspended_at: now,
            },
        )
    }

    /// The user deactivated at `now`.
    pub open spec fn deactivated(self, now: UtcDateTime) -> UserView {
        self.moved_to(
            UserStateKind::DeactivatedByUser,
            self.state.email,
            now,
            UserEventView::Deactivated {
                username: self.username,
                email: self.state.email,
                deactivated_at: now,
            },
        )
    }

    /// The deactivated user active again at `now`, with the address to verify anew.
    pub open spec fn reactivated(self, now: UtcDateTime) -> UserView {
        self.moved_to(
            UserStateKind::ActiveWithUnverifiedEmail,
            self.state.email,
            now,
            UserEventView::Reactivated {
                username: self.username,
                email: self.state.email,
                reactivated_at: now,
            },
        )
    }

    /// The suspended user let back in at `now`, with the address to verify anew.
    pub open spec fn unlocked(self, now: UtcDateTime) -> UserView {
        self.moved_to(
            UserStateKind::ActiveWithUnverifiedEmail,
            self.state.email,
            now,
            UserEventView::Unlocked {
                username: self.username,
                email: self.state.email,
                unlocked_at: now,
            },
        )
    }

    /// The user active at `now` with the verified address `email`.
    pub open spec fn email_verified(self, email: Seq<char>, now: UtcDateTime) -> UserView {
        self.moved_to(
            UserStateKind::Active,
            email,
            now,
            UserEventView::EmailVerified { email, username: self.username, verified_at: now },
        )
    }

    /// The user with the new, unverified address `new_email` at `now`: a user
    /// still waiting for the first verification keeps waiting, any other user
    /// waits for the new address to be verified.
    pub open spec fn email_changed(self, new_email: Seq<char>, now: UtcDateTime) -> UserView {
        self.moved_to(
            if self.state.kind == UserStateKind::PendingVerification {
                UserStateKind::PendingVerification
            } else {
                UserStateKind::ActiveWithUnverifiedEmail
            },
            new_email,
            now,
            UserEventView::EmailChanged { new_email, username: self.username, changed_at: now },
        )
    }

    /// The user renamed `new_username` at `now`.
    pub open spec fn username_changed(self, new_username: Seq<char>, now: UtcDateTime) -> UserView {
        UserView {
            username: new_username,
            updated_at: now,
            events: self.events.push(
                UserEventView::UsernameChanged {
                    old_username: self.username,
                    new_username,
                    email: self.email(),
                    changed_at: now,
                },
            ),
            ..self
        }
    }
}

proof fn lemma_push_event_views(events: Seq<UserEvent>, event: UserEvent)
    ensures
        event_views(events.push(event)) == event_views(events).push(event@),
{
    assert(event_views(events.push(event)) =~= event_views(events).push(event@));
}

impl User {
    /// A newly registered user, waiting for its address to be verified.
    pub fn new(id: UserId, info: UniqueUserInfo, password: HashedPassword, now: UtcDateTime) -> (r:
        Result<User, UserDomainError>)
        ensures
            r matches Ok(user) && user@ == UserView::registered(
                id,
                info.spec_username(),
                info.spec_email(),
                password@,
                now,
            ),
    {
        let (username, email) = info.into_parts();
        let mut events: Vec<UserEvent> = Vec::new();
        events.push(
            UserEvent::Created(
                UserCreatedEvent { email: email.clone(), username: username.clone(), registered_at: now },
            ),
        );
        let user = User {
            id,
            username,
            password,
            role: UserRole::User,
            state: UserState::PendingVerification { email },
            created_at: now,
            updated_at: now,
            events,
        };
        proof {
            assert(event_views(user.events@) =~= seq![
                UserEventView::Created { email: info.spec_email(), username: info.spec_username(), registered_at: now },
            ]);
        }
        Ok(user)
    }

    /// Rebuilds a stored user, which has no events left to hand out. The state is
    /// checked before the role.
    pub fn reconstruct(
        id: UserId,
        username: String,
        password: HashedPassword,
        role: &str,
        state_source: UserStateRaw,
        created_at: UtcDateTime,
        updated_at: UtcDateTime,
    ) -> (r: Result<User, UserReconstructionError>)
        ensures
            r is Ok <==> (UserState::from_parts(state_source.status@, state_source.email@) is Some
                && UserRole::from_name(role@) is Some),
            r matches Ok(user) ==> user@ == (UserView {
                id,
                username: username@,
                password: password@,
                role: UserRole::from_name(role@).unwrap(),
                state: UserState::from_parts(state_source.status@, state_source.email@).unwrap(),
                created_at,
                updated_at,
                events: Seq::empty(),
            }),
            UserStateKind::from_name(state_source.status@) is None ==> (r matches Err(
                UserReconstructionError::InvalidStatus { invalid_status },
            ) && invalid_status@ == state_source.status@),
            UserStateKind::from_name(state_source.status@) is Some
                && !crate::user::email::is_valid_email(state_source.email@) ==> (r matches Err(
                UserReconstructionError::InvalidEmail(e),
            ) && e.invalid_address() == state_source.email@),
            UserState::from_parts(state_source.status@, state_source.email@) is Some
                && UserRole::from_name(role@) is None ==> (r matches Err(
                UserReconstructionError::InvalidRole { invalid_role },
            ) && invalid_role@ == role@),
    {
        let state = match UserState::try_from(state_source) {
            Ok(state) => state,
            Err(e) => return Err(e),
        };
        let role = match UserRole::try_from(role) {
            Ok(role) => role,
            Err(e) => return Err(e),
        };
        let user = User {
            id,
            username,
            password,
            role,
            state,
            created_at,
            updated_at,
            events: Vec::new(),
        };
        proof {
            assert(event_views(user.events@) =~= Seq::<UserEventView>::empty());
        }
        Ok(user)
    }

    fn record_event(&mut self, event: UserEvent)
        ensures
            final(self)@ == (UserView { events: old(self)@.events.push(event@), ..old(self)@ }),
    {
        proof {
            lemma_push_event_views(self.events@, event);
        }
        self.events.push(event);
    }

    pub fn id(&self) -> (r: UserId)
        ensures
            r == self@.id,
    {
        self.id
    }

    pub fn username(&self) -> (r: &str)
        ensures
            r@ == self@.username,
    {
        self.username.as_str()
    }

    pub fn password(&self) -> (r: &HashedPassword)
        ensures
            r@ == self@.password,
    {
        &self.password
    }

    pub fn role(&self) -> (r: UserRole)
        ensures
            r == self@.role,
    {
        self.role
    }

    pub fn state(&self) -> (r: &UserState)
        ensures
            r@ == self@.state,
    {
        &self.state
    }

    /// The user's e-mail address, verified exactly when the user is active.
    pub fn email(&self) -> (r: Email)
        ensures
            r@ == self@.email(),
    {
        match &self.state {
            UserState::Active { email } => Email::Verified(email.clone()),
            UserState::SuspendedByAdmin { email } => Email::Unverified(email.clone()),
            UserState::DeactivatedByUser { email } => Email::Unverified(email.clone()),
            UserState::PendingVerification { email } => Email::Unverified(email.clone()),
            UserState::ActiveWithUnverifiedEmail { email } => Email::Unverified(email.clone()),
        }
    }

    pub fn created_at(&self) -> (r: UtcDateTime)
        ensures
            r == self@.created_at,
    {
        self.created_at
    }

    pub fn updated_at(&self) -> (r: UtcDateTime)
        ensures
            r == self@.updated_at,
    {
        self.updated_at
    }
}


/// How the user's state changes, and what is recorded, when the user changes
/// name, address or state. Each change that takes effect stamps the user with
/// the time it happened and records exactly one event; a change that is refused
/// or has nothing to do leaves the user as it was.
impl User {
    /// Renames the user at `now`.
    pub fn change_username_at(&mut self, new_username: UniqueUsername, now: UtcDateTime) -> (r:
        Result<(), ModificationWithInvalidStateError>)
        ensures
            r is Ok,
            final(self)@ == old(self)@.username_changed(new_username@, now),
    {
        let new_username = new_username.into_inner();
        let old_username = self.username.clone();
        self.username = new_username;
        self.updated_at = now;
        let event = UserEvent::UsernameChanged(
            UsernameChangedEvent {
                old_username,
                new_username: self.username.clone(),
                email: self.email(),
                changed_at: now,
            },
        );
        self.record_event(event);
        Ok(())
    }

    /// Renames the user at the time the clock tells.
    pub fn change_username<C: Clock>(&mut self, new_username: UniqueUsername, clock: &C) -> (r:
        Result<(), ModificationWithInvalidStateError>)
        ensures
            clock.spec_reads(final(self)@.updated_at),
            r is Ok,
            final(self)@ == old(self)@.username_changed(new_username@, final(self)@.updated_at),
    {
        let now = clock.now();
        self.change_username_at(new_username, now)
    }

    /// Verifies the user's address with `verifier` at `now`: the verifier is
    /// asked about the current address, and the user becomes active with the
    /// address it answers; a verifier has no error to give. An active user is
    /// left as it is; a suspended or deactivated user is refused.
    pub fn verify_email_at<V: EmailVerifier>(&mut self, verifier: &V, now: UtcDateTime) -> (r:
        Result<(), UserDomainError>)
        ensures
            old(self)@.state.kind == UserStateKind::Active ==> r is Ok && final(self)@ == old(self)@,
            old(self)@.state.kind == UserStateKind::SuspendedByAdmin ==> r == Err::<(), _>(
                UserDomainError::StateTransitionError(
                    UserStateTransitionError::AlreadySuspended { to: UserStateKind::Active },
                ),
            ) && final(self)@ == old(self)@,
            old(self)@.state.kind == UserStateKind::DeactivatedByUser ==> r == Err::<(), _>(
                UserDomainError::StateTransitionError(
                    UserStateTransitionError::AlreadyDeactivated { to: UserStateKind::Active },
                ),
            ) && final(self)@ == old(self)@,
            old(self)@.state.kind == UserStateKind::PendingVerification || old(self)@.state.kind
                == UserStateKind::ActiveWithUnverifiedEmail ==> r is Ok && verifier.spec_verifies(
                old(self)@.state.email,
                Ok(final(self)@.state.email),
            ) && final(self)@ == old(self)@.email_verified(final(self)@.state.email, now),
    {
        let verified = match &self.state {
            UserState::Active { .. } => return Ok(()),
            UserState::SuspendedByAdmin { .. } => {
                return Err(
                    UserDomainError::StateTransitionError(
                        UserStateTransitionError::AlreadySuspended { to: UserStateKind::Active },
                    ),
                );
            },
            UserState::DeactivatedByUser { .. } => {
                return Err(
                    UserDomainError::StateTransitionError(
                        UserStateTransitionError::AlreadyDeactivated { to: UserStateKind::Active },
                    ),
                );
            },
            UserState::PendingVerification { email } => verifier.verify(email),
            UserState::ActiveWithUnverifiedEmail { email } => verifier.verify(email),
        };
        match verified {
            Ok(email) => {
                self.finish_email_verification(email, now);
                Ok(())
            },
            Err(e) => {
                proof {
                    use_type_invariant(&e);
                }
                Err(UserDomainError::EmailVerificationError(e))
            },
        }
    }

    /// Makes the user, who waited for a verification, active with the verified
    /// address `email` at `now`.
    fn finish_email_verification(&mut self, email: VerifiedEmail, now: UtcDateTime)
        requires
            old(self)@.state.kind == UserStateKind::PendingVerification || old(self)@.state.kind
                == UserStateKind::ActiveWithUnverifiedEmail,
        ensures
            final(self)@ == old(self)@.email_verified(email@, now),
    {
        self.state = UserState::Active { email: email.clone() };
        self.updated_at = now;
        let event = UserEvent::EmailVerified(
            UserEmailVerifiedEvent { email, username: self.username.clone(), verified_at: now },
        );
        self.record_event(event);
    }

    /// Verifies the user's address with `verifier` at the time the clock tells,
    /// which is read only once the verifier has answered with an address.
    pub fn verify_email<V: EmailVerifier, C: Clock>(&mut self, verifier: &V, clock: &C) -> (r:
        Result<(), UserDomainError>)
        ensures
            old(self)@.state.kind == UserStateKind::PendingVerification || old(self)@.state.kind
                == UserStateKind::ActiveWithUnverifiedEmail ==> clock.spec_reads(final(self)@.updated_at),
            old(self)@.state.kind == UserStateKind::Active ==> r is Ok && final(self)@ == old(self)@,
            old(self)@.state.kind == UserStateKind::SuspendedByAdmin ==> r == Err::<(), _>(
                UserDomainError::StateTransitionError(
                    UserStateTransitionError::AlreadySuspended { to: UserStateKind::Active },
                ),
            ) && final(self)@ == old(self)@,
            old(self)@.state.kind == UserStateKind::DeactivatedByUser ==> r == Err::<(), _>(
                UserDomainError::StateTransitionError(
                    UserStateTransitionError::AlreadyDeactivated { to: UserStateKind::Active },
                ),
            ) && final(self)@ == old(self)@,
            old(self)@.state.kind == UserStateKind::PendingVerification || old(self)@.state.kind
                == UserStateKind::ActiveWithUnverifiedEmail ==> r is Ok && verifier.spec_verifies(
                old(self)@.state.email,
                Ok(final(self)@.state.email),
            ) && final(self)@ == old(self)@.email_verified(final(self)@.state.email, final(self)@.updated_at),
    {
        let verified = match &self.state {
            UserState::PendingVerification { email } => verifier.verify(email),
            UserState::ActiveWithUnverifiedEmail { email } => verifier.verify(email),
            _ => return self.verify_email_at(verifier, self.updated_at),
        };
        match verified {
            Ok(email) => {
                let now = clock.now();
                self.finish_email_verification(email, now);
                Ok(())
            },
            Err(e) => {
                proof {
                    use_type_invariant(&e);
                }
                Err(UserDomainError::EmailVerificationError(e))
            },
        }
    }

    /// Gives the user the new address `new_email` at `now`, to be verified. The
    /// user's current address changes nothing; a suspended or deactivated user
    /// is refused.
    pub fn change_email_at(&mut self, new_email: UniqueEmail, now: UtcDateTime) -> (r: Result<
        (),
        ModificationWithInvalidStateError,
    >)
        ensures
            new_email@ == old(self)@.state.email ==> r is Ok && final(self)@ == old(self)@,
            new_email@ != old(self)@.state.email && (old(self)@.state.kind
                == UserStateKind::SuspendedByAdmin || old(self)@.state.kind
                == UserStateKind::DeactivatedByUser) ==> r == Err::<(), _>(
                ModificationWithInvalidStateError::EmailModification { state: old(self)@.state.kind },
            ) && final(self)@ == old(self)@,
            new_email@ != old(self)@.state.email && !(old(self)@.state.kind
                == UserStateKind::SuspendedByAdmin || old(self)@.state.kind
                == UserStateKind::DeactivatedByUser) ==> r is Ok && final(self)@ == old(
                self,
            )@.email_changed(new_email@, now),
    {
        let new_email = new_email.into_inner();
        if str_eq(new_email.as_str(), self.email().as_str()) {
            return Ok(());
        }
        match &self.state {
            UserState::Active { .. } => {
                self.state = UserState::ActiveWithUnverifiedEmail { email: new_email.clone() };
            },
            UserState::SuspendedByAdmin { .. } => {
                return Err(
                    ModificationWithInvalidStateError::EmailModification {
                        state: self.state.kind_raw(),
                    },
                );
            },
            UserState::DeactivatedByUser { .. } => {
                return Err(
                    ModificationWithInvalidStateError::EmailModification {
                        state: self.state.kind_raw(),
                    },
                );
            },
            UserState::PendingVerification { .. } => {
                self.state = UserState::PendingVerification { email: new_email.clone() };
            },
            UserState::ActiveWithUnverifiedEmail { .. } => {
                self.state = UserState::ActiveWithUnverifiedEmail { email: new_email.clone() };
            },
        }
        self.updated_at = now;
        let event = UserEvent::EmailChanged(
            UserEmailChangedEvent { new_email, username: self.username.clone(), changed_at: now },
        );
        self.record_event(event);
        Ok(())
    }

    /// Gives the user the new address `new_email` at the time the clock tells.
    pub fn change_email<C: Clock>(&mut self, new_email: UniqueEmail, clock: &C) -> (r: Result<
        (),
        ModificationWithInvalidStateError,
    >)
        ensures
            new_email@ != old(self)@.state.email && !(old(self)@.state.kind
                == UserStateKind::SuspendedByAdmin || old(self)@.state.kind
                == UserStateKind::DeactivatedByUser) ==> clock.spec_reads(final(self)@.updated_at),
            new_email@ == old(self)@.state.email ==> r is Ok && final(self)@ == old(self)@,
            new_email@ != old(self)@.state.email && (old(self)@.state.kind
                == UserStateKind::SuspendedByAdmin || old(self)@.state.kind
                == UserStateKind::DeactivatedByUser) ==> r == Err::<(), _>(
                ModificationWithInvalidStateError::EmailModification { state: old(self)@.state.kind },
            ) && final(self)@ == old(self)@,
            new_email@ != old(self)@.state.email && !(old(self)@.state.kind
                == UserStateKind::SuspendedByAdmin || old(self)@.state.kind
                == UserStateKind::DeactivatedByUser) ==> r is Ok && final(self)@ == old(
                self,
            )@.email_changed(new_email@, final(self)@.updated_at),
    {
        let kind = self.state.kind_raw();
        let changes = !str_eq(new_email.as_str(), self.email().as_str()) && kind
            != UserStateKind::SuspendedByAdmin && kind != UserStateKind::DeactivatedByUser;
        let now = if changes {
            clock.now()
        } else {
            self.updated_at
        };
        self.change_email_at(new_email, now)
    }

    /// Suspends the user at `now`. Suspending a suspended user changes nothing.
    pub fn suspend_at(&mut self, reason: String, now: UtcDateTime) -> (r: Result<
        (),
        UserDomainError,
    >)
        ensures
            r is Ok,
            old(self)@.state.kind == UserStateKind::SuspendedByAdmin ==> final(self)@ == old(self)@,
            old(self)@.state.kind != UserStateKind::SuspendedByAdmin ==> final(self)@ == old(
                self,
            )@.suspended(reason@, now),
    {
        let email = match &self.state {
            UserState::Active { email } => {
                let email = email.unverify();
                self.state = UserState::SuspendedByAdmin { email: email.clone() };
                email
            },
            UserState::SuspendedByAdmin { .. } => return Ok(()),
            UserState::DeactivatedByUser { email } => {
                let email = email.clone();
                self.state = UserState::SuspendedByAdmin { email: email.clone() };
                email
            },
            UserState::PendingVerification { email } => {
                let email = email.clone();
                self.state = UserState::SuspendedByAdmin { email: email.clone() };
                email
            },
            UserState::ActiveWithUnverifiedEmail { email } => {
                let email = email.clone();
                self.state = UserState::SuspendedByAdmin { email: email.clone() };
                email
            },
        };
        self.updated_at = now;
        let event = UserEvent::Suspended(
            UserSuspendedEvent {
                username: self.username.clone(),
                email,
                reason,
                suspended_at: now,
            },
        );
        self.record_event(event);
        Ok(())
    }

    /// Suspends the user at the time the clock tells.
    pub fn suspend<C: Clock>(&mut self, reason: String, clock: &C) -> (r: Result<
        (),
        UserDomainError,
    >)
        ensures
            old(self)@.state.kind != UserStateKind::SuspendedByAdmin ==> clock.spec_reads(
                final(self)@.updated_at,
            ),
            r is Ok,
            old(self)@.state.kind == UserStateKind::SuspendedByAdmin ==> final(self)@ == old(self)@,
            old(self)@.state.kind != UserStateKind::SuspendedByAdmin ==> final(self)@ == old(
                self,
            )@.suspended(reason@, final(self)@.updated_at),
    {
        let now = if self.state.kind_raw() == UserStateKind::SuspendedByAdmin {
            self.updated_at
        } else {
            clock.now()
        };
        self.suspend_at(reason, now)
    }

    /// Deactivates the user at `now`, at the user's own request. Only an active
    /// user can leave; deactivating a deactivated user changes nothing.
    pub fn deactivate_at(&mut self, now: UtcDateTime) -> (r: Result<(), UserDomainError>)
        ensures
            old(self)@.state.kind == UserStateKind::Active ==> r is Ok && final(self)@ == old(
                self,
            )@.deactivated(now),
            old(self)@.state.kind == UserStateKind::SuspendedByAdmin ==> r == Err::<(), _>(
                UserDomainError::StateTransitionError(
                    UserStateTransitionError::AlreadySuspended {
                        to: UserStateKind::DeactivatedByUser,
                    },
                ),
            ) && final(self)@ == old(self)@,
            old(self)@.state.kind == UserStateKind::DeactivatedByUser ==> r is Ok && final(self)@
                == old(self)@,
            old(self)@.state.kind == UserStateKind::PendingVerification || old(self)@.state.kind
                == UserStateKind::ActiveWithUnverifiedEmail ==> (r matches Err(
                UserDomainError::StateTransitionError(UserStateTransitionError::NotVerified { from }),
            ) && from@ == old(self)@.state) && final(self)@ == old(self)@,
    {
        let email = match &self.state {
            UserState::Active { email } => {
                let email = email.unverify();
                self.state = UserState::DeactivatedByUser { email: email.clone() };
                email
            },
            UserState::SuspendedByAdmin { .. } => {
                return Err(
                    UserDomainError::StateTransitionError(
                        UserStateTransitionError::AlreadySuspended {
                            to: UserStateKind::DeactivatedByUser,
                        },
                    ),
                );
            },
            UserState::DeactivatedByUser { .. } => return Ok(()),
            UserState::PendingVerification { .. } => {
                return Err(
                    UserDomainError::StateTransitionError(
                        UserStateTransitionError::NotVerified { from: self.state.clone() },
                    ),
                );
            },
            UserState::ActiveWithUnverifiedEmail { .. } => {
                return Err(
                    UserDomainError::StateTransitionError(
                        UserStateTransitionError::NotVerified { from: self.state.clone() },
                    ),
                );
            },
        };
        self.updated_at = now;
        let event = UserEvent::Deactivated(
            UserDeactivatedEvent { username: self.username.clone(), email, deactivated_at: now },
        );
        self.record_event(event);
        Ok(())
    }

    /// Deactivates the user at the time the clock tells.
    pub fn deactivate<C: Clock>(&mut self, clock: &C) -> (r: Result<(), UserDomainError>)
        ensures
            old(self)@.state.kind == UserStateKind::Active ==> clock.spec_reads(
                final(self)@.updated_at,
            ),
            old(self)@.state.kind == UserStateKind::Active ==> r is Ok && final(self)@ == old(
                self,
            )@.deactivated(final(self)@.updated_at),
            old(self)@.state.kind == UserStateKind::SuspendedByAdmin ==> r == Err::<(), _>(
                UserDomainError::StateTransitionError(
                    UserStateTransitionError::AlreadySuspended {
                        to: UserStateKind::DeactivatedByUser,
                    },
                ),
            ) && final(self)@ == old(self)@,
            old(self)@.state.kind == UserStateKind::DeactivatedByUser ==> r is Ok && final(self)@
                == old(self)@,
            old(self)@.state.kind == UserStateKind::PendingVerification || old(self)@.state.kind
                == UserStateKind::ActiveWithUnverifiedEmail ==> (r matches Err(
                UserDomainError::StateTransitionError(UserStateTransitionError::NotVerified { from }),
            ) && from@ == old(self)@.state) && final(self)@ == old(self)@,
    {
        let now = if self.state.kind_raw() == UserStateKind::Active {
            clock.now()
        } else {
            self.updated_at
        };
        self.deactivate_at(now)
    }

    /// Makes a deactivated user active again at `now`, with the address to verify
    /// anew. An active user is left as it is; a suspended user, or one whose
    /// address was never verified, is refused.
    pub fn activate_at(&mut self, now: UtcDateTime) -> (r: Result<(), UserDomainError>)
        ensures
            old(self)@.state.kind == UserStateKind::Active ==> r is Ok && final(self)@ == old(self)@,
            old(self)@.state.kind == UserStateKind::SuspendedByAdmin ==> r == Err::<(), _>(
                UserDomainError::StateTransitionError(
                    UserStateTransitionError::AlreadySuspended { to: UserStateKind::Active },
                ),
            ) && final(self)@ == old(self)@,
            old(self)@.state.kind == UserStateKind::DeactivatedByUser ==> r is Ok && final(self)@
                == old(self)@.reactivated(now),
            old(self)@.state.kind == UserStateKind::PendingVerification || old(self)@.state.kind
                == UserStateKind::ActiveWithUnverifiedEmail ==> (r matches Err(
                UserDomainError::StateTransitionError(UserStateTransitionError::NotVerified { from }),
            ) && from@ == old(self)@.state) && final(self)@ == old(self)@,
    {
        let email = match &self.state {
            UserState::Active { .. } => return Ok(()),
            UserState::SuspendedByAdmin { .. } => {
                return Err(
                    UserDomainError::StateTransitionError(
                        UserStateTransitionError::AlreadySuspended { to: UserStateKind::Active },
                    ),
                );
            },
            UserState::DeactivatedByUser { email } => {
                let email = email.clone();
                self.state = UserState::ActiveWithUnverifiedEmail { email: email.clone() };
                email
            },
            UserState::PendingVerification { .. } => {
                return Err(
                    UserDomainError::StateTransitionError(
                        UserStateTransitionError::NotVerified { from: self.state.clone() },
                    ),
                );
            },
            UserState::ActiveWithUnverifiedEmail { .. } => {
                return Err(
                    UserDomainError::StateTransitionError(
                        UserStateTransitionError::NotVerified { from: self.state.clone() },
                    ),
                );
            },
        };
        self.updated_at = now;
        let event = UserEvent::Reactivated(
            UserReactivatedEvent { username: self.username.clone(), email, reactivated_at: now },
        );
        self.record_event(event);
        Ok(())
    }

    /// Makes a deactivated user active again at the time the clock tells. The
    /// verifier type names the kind of verification that the address will need.
    pub fn activate<V: EmailVerifier, C: Clock>(&mut self, clock: &C) -> (r: Result<
        (),
        UserDomainError,
    >)
        ensures
            old(self)@.state.kind == UserStateKind::DeactivatedByUser ==> clock.spec_reads(
                final(self)@.updated_at,
            ),
            old(self)@.state.kind == UserStateKind::Active ==> r is Ok && final(self)@ == old(self)@,
            old(self)@.state.kind == UserStateKind::SuspendedByAdmin ==> r == Err::<(), _>(
                UserDomainError::StateTransitionError(
                    UserStateTransitionError::AlreadySuspended { to: UserStateKind::Active },
                ),
            ) && final(self)@ == old(self)@,
            old(self)@.state.kind == UserStateKind::DeactivatedByUser ==> r is Ok && final(self)@
                == old(self)@.reactivated(final(self)@.updated_at),
            old(self)@.state.kind == UserStateKind::PendingVerification || old(self)@.state.kind
                == UserStateKind::ActiveWithUnverifiedEmail ==> (r matches Err(
                UserDomainError::StateTransitionError(UserStateTransitionError::NotVerified { from }),
            ) && from@ == old(self)@.state) && final(self)@ == old(self)@,
    {
        let now = if self.state.kind_raw() == UserStateKind::DeactivatedByUser {
            clock.now()
        } else {
            self.updated_at
        };
        self.activate_at(now)
    }

    /// Lifts a suspension at `now`; the user is active again with the address to
    /// verify anew. A user who is not suspended is refused.
    pub fn unlock_suspension_at(&mut self, now: UtcDateTime) -> (r: Result<(), UserDomainError>)
        ensures
            old(self)@.state.kind == UserStateKind::SuspendedByAdmin ==> r is Ok && final(self)@
                == old(self)@.unlocked(now),
            old(self)@.state.kind != UserStateKind::SuspendedByAdmin ==> (r matches Err(
                UserDomainError::StateTransitionError(UserStateTransitionError::NotSuspended { from }),
            ) && from@ == old(self)@.state) && final(self)@ == old(self)@,
    {
        let email = match &self.state {
            UserState::SuspendedByAdmin { email } => {
                let email = email.clone();
                self.state = UserState::ActiveWithUnverifiedEmail { email: email.clone() };
                email
            },
            _ => {
                return Err(
                    UserDomainError::StateTransitionError(
                        UserStateTransitionError::NotSuspended { from: self.state.clone() },
                    ),
                );
            },
        };
        self.updated_at = now;
        let event = UserEvent::Unlocked(
            UserUnlockedEvent { username: self.username.clone(), email, unlocked_at: now },
        );
        self.record_event(event);
        Ok(())
    }

    /// Lifts a suspension at the time the clock tells.
    pub fn unlock_suspension<C: Clock>(&mut self, clock: &C) -> (r: Result<(), UserDomainError>)
        ensures
            old(self)@.state.kind == UserStateKind::SuspendedByAdmin ==> clock.spec_reads(
                final(self)@.updated_at,
            ),
            old(self)@.state.kind == UserStateKind::SuspendedByAdmin ==> r is Ok && final(self)@
                == old(self)@.unlocked(final(self)@.updated_at),
            old(self)@.state.kind != UserStateKind::SuspendedByAdmin ==> (r matches Err(
                UserDomainError::StateTransitionError(UserStateTransitionError::NotSuspended { from }),
            ) && from@ == old(self)@.state) && final(self)@ == old(self)@,
    {
        let now = if self.state.kind_raw() == UserStateKind::SuspendedByAdmin {
            clock.now()
        } else {
            self.updated_at
        };
        self.unlock_suspension_at(now)
    }
}

/// The outbox events that carry `events`, in order: each a new pending outbox
/// event created at the time its event happened.
pub open spec fn carries_events(out: Seq<OutboxEvent>, events: Seq<UserEventView>) -> bool {
    &&& out.len() == events.len()
    &&& forall|i: int|
        #![trigger out[i]]
        0 <= i < out.len() ==> {
            &&& out[i]@.event == DomainEventView::UserEvent(events[i])
            &&& out[i]@.created_at == events[i].occurred_at()
            &&& out[i]@.status == OutboxEventStatus::Pending
        }
}

impl User {
    /// Hands out the recorded events, oldest first, each as a new outbox event
    /// created at the time the event happened, leaving none recorded.
    fn pull_outbox_events(&mut self) -> (r: Vec<OutboxEvent>)
        ensures
            final(self)@ == (UserView { events: Seq::empty(), ..old(self)@ }),
            carries_events(r@, old(self)@.events),
    {
        let mut events: Vec<UserEvent> = Vec::new();
        std::mem::swap(&mut events, &mut self.events);
        let ghost pulled = events@;
        let mut out: Vec<OutboxEvent> = Vec::new();
        while events.len() > 0
            invariant
                out.len() + events.len() == pulled.len(),
                events@ == pulled.subrange(out.len() as int, pulled.len() as int),
                carries_events(out@, event_views(pulled.subrange(0, out.len() as int))),
            decreases events.len(),
        {
            let ghost done = out.len() as int;
            let event = events.remove(0);
            let created_at = event.created_at();
            out.push(OutboxEvent::new(DomainEvent::UserEvent(event), created_at));
            proof {
                assert(pulled.subrange(0, done + 1) =~= pulled.subrange(0, done).push(pulled[done]));
                lemma_push_event_views(pulled.subrange(0, done), pulled[done]);
                assert(events@ =~= pulled.subrange(done + 1, pulled.len() as int));
            }
        }
        proof {
            assert(pulled.subrange(0, pulled.len() as int) =~= pulled);
            assert(event_views(self.events@) =~= Seq::<UserEventView>::empty());
        }
        out
    }
}

impl EntityWithEvents for User {
    open spec fn recorded_events(&self) -> Seq<DomainEventView> {
        self@.events.map_values(|e: UserEventView| DomainEventView::UserEvent(e))
    }

    fn pull_events(&mut self) -> (r: Vec<OutboxEvent>)
        ensures
            final(self)@ == (UserView { events: Seq::empty(), ..old(self)@ }),
            carries_events(r@, old(self)@.events),
    {
        let r = self.pull_outbox_events();
        proof {
            assert(self.recorded_events() =~= Seq::<DomainEventView>::empty());
        }
        r
    }
}

impl EntityTrait for User {
    type Identity = UserId;

    open spec fn spec_identity(&self) -> UserId {
        self@.id
    }

    fn identity(&self) -> (r: UserId) {
        self.id
    }
}

impl PartialEq for User {
    fn eq(&self, other: &User) -> (r: bool) {
        self.id == other.id
    }
}

impl vstd::std_specs::cmp::PartialEqSpecImpl for User {
    open spec fn obeys_eq_spec() -> bool {
        true
    }

    open spec fn eq_spec(&self, other: &User) -> bool {
        self.spec_identity() == other.spec_identity()
    }
}

impl Eq for User {}

impl User {
    /// Two users are the same user exactly when their identifiers are equal,
    /// whatever their names, addresses, states, times or recorded events.
    pub proof fn lemma_equal_exactly_by_identifier(a: User, b: User)
        ensures
            a.eq_spec(&b) <==> a@.id == b@.id,
            a.eq_spec(&b) <==> a.spec_identity() == b.spec_identity(),
    {
    }

    /// A user stays equal to itself through every change of its name, address
    /// or state.
    pub proof fn lemma_changes_keep_equality(a: User, b: User, reason: Seq<char>, email: Seq<char>, username: Seq<char>, now: UtcDateTime)
        requires
            b@ == a@.suspended(reason, now) || b@ == a@.deactivated(now) || b@ == a@.reactivated(now)
                || b@ == a@.unlocked(now) || b@ == a@.email_verified(email, now) || b@
                == a@.email_changed(email, now) || b@ == a@.username_changed(username, now),
        ensures
            a.eq_spec(&b),
            b.eq_spec(&a),
    {
    }
}

/// What the user's life cycle keeps and how its changes undo one another.
impl UserView {
    /// Whether `other` is the same user as this one, with the same password,
    /// role and time of creation.
    pub open spec fn same_account(self, other: UserView) -> bool {
        &&& other.id == self.id
        &&& other.password == self.password
        &&& other.role == self.role
        &&& other.created_at == self.created_at
    }

    /// No change of name, address or state touches the user's identifier,
    /// password, role or time of creation; each stamps the user with its time
    /// and records one event more.
    pub proof fn lemma_changes_keep_account(
        self,
        reason: Seq<char>,
        email: Seq<char>,
        username: Seq<char>,
        now: UtcDateTime,
    )
        ensures
            self.same_account(self.suspended(reason, now)),
            self.same_account(self.deactivated(now)),
            self.same_account(self.reactivated(now)),
            self.same_account(self.unlocked(now)),
            self.same_account(self.email_verified(email, now)),
            self.same_account(self.email_changed(email, now)),
            self.same_account(self.username_changed(username, now)),
            self.suspended(reason, now).updated_at == now,
            self.deactivated(now).updated_at == now,
            self.reactivated(now).updated_at == now,
            self.unlocked(now).updated_at == now,
            self.email_verified(email, now).updated_at == now,
            self.email_changed(email, now).updated_at == now,
            self.username_changed(username, now).updated_at == now,
            self.suspended(reason, now).events.len() == self.events.len() + 1,
            self.deactivated(now).events.len() == self.events.len() + 1,
            self.reactivated(now).events.len() == self.events.len() + 1,
            self.unlocked(now).events.len() == self.events.len() + 1,
            self.email_verified(email, now).events.len() == self.events.len() + 1,
            self.email_changed(email, now).events.len() == self.events.len() + 1,
            self.username_changed(username, now).events.len() == self.events.len() + 1,
    {
    }

    /// Unlocking a user whom an administrator suspended lets the user back in
    /// with the address it had, to be verified anew, and records the suspension
    /// and the unlocking in that order.
    pub proof fn lemma_suspend_then_unlock(
        self,
        reason: Seq<char>,
        suspended_at: UtcDateTime,
        unlocked_at: UtcDateTime,
    )
        ensures
            ({
                let after = self.suspended(reason, suspended_at).unlocked(unlocked_at);
                &&& self.same_account(after)
                &&& after.username == self.username
                &&& after.state == UserStateView {
                    kind: UserStateKind::ActiveWithUnverifiedEmail,
                    email: self.state.email,
                }
                &&& after.updated_at == unlocked_at
                &&& after.events == self.events.push(
                    UserEventView::Suspended {
                        username: self.username,
                        email: self.state.email,
                        reason,
                        suspended_at,
                    },
                ).push(
                    UserEventView::Unlocked {
                        username: self.username,
                        email: self.state.email,
                        unlocked_at,
                    },
                )
            }),
    {
    }

    /// Activating a user who deactivated itself brings it back with the address
    /// it had, to be verified anew, and records the deactivation and the
    /// reactivation in that order.
    pub proof fn lemma_deactivate_then_activate(
        self,
        deactivated_at: UtcDateTime,
        reactivated_at: UtcDateTime,
    )
        ensures
            ({
                let after = self.deactivated(deactivated_at).reactivated(reactivated_at);
                &&& self.same_account(after)
                &&& after.username == self.username
                &&& after.state == UserStateView {
                    kind: UserStateKind::ActiveWithUnverifiedEmail,
                    email: self.state.email,
                }
                &&& after.updated_at == reactivated_at
                &&& after.events == self.events.push(
                    UserEventView::Deactivated {
                        username: self.username,
                        email: self.state.email,
                        deactivated_at,
                    },
                ).push(
                    UserEventView::Reactivated {
                        username: self.username,
                        email: self.state.email,
                        reactivated_at,
                    },
                )
            }),
    {
    }

    /// A user stored by the name of its role, the name of its state's kind and
    /// its address is rebuilt with the same role and state, whenever its address
    /// is well formed, as every address that the library accepts is.
    pub proof fn lemma_stored_user_round_trip(self)
        requires
            crate::user::email::is_valid_email(self.state.email),
        ensures
            UserState::from_parts(self.state.kind.name(), self.state.email) == Some(self.state),
            UserRole::from_name(self.role.name()) == Some(self.role),
    {
        UserState::lemma_stored_state_round_trip(self.state);
        UserRole::lemma_name_round_trip(self.role);
    }

    /// Verifying the address of a user whose address changed makes the user
    /// active with the new address.
    pub proof fn lemma_change_then_verify_email(
        self,
        new_email: Seq<char>,
        changed_at: UtcDateTime,
        verified_at: UtcDateTime,
    )
        ensures
            self.email_changed(new_email, changed_at).email_verified(new_email, verified_at).state
                == (UserStateView { kind: UserStateKind::Active, email: new_email }),
            self.email_changed(new_email, changed_at).email_verified(
                new_email,
                verified_at,
            ).email() == (EmailView { verified: true, address: new_email }),
    {
    }
}

} // verus!
