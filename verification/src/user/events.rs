use vstd::prelude::*;

use crate::time::UtcDateTime;
use crate::user::email::{Email, EmailView, UnverifiedEmail, VerifiedEmail};

verus! {

/// Something that happened to a user.
#[derive(Debug, Clone)]
pub enum UserEvent {
    Created(UserCreatedEvent),
    Suspended(UserSuspendedEvent),
    Unlocked(UserUnlockedEvent),
    Deactivated(UserDeactivatedEvent),
    Reactivated(UserReactivatedEvent),
    PromotedToAdmin(UserPromotedToAdminEvent),
    UsernameChanged(UsernameChangedEvent),
    EmailChanged(UserEmailChangedEvent),
    EmailVerified(UserEmailVerifiedEvent),
}

#[derive(Debug, Clone)]
pub struct UserCreatedEvent {
    pub email: UnverifiedEmail,
    pub username: String,
    pub registered_at: UtcDateTime,
}

#[derive(Debug, Clone)]
pub struct UserSuspendedEvent {
    pub username: String,
    pub email: UnverifiedEmail,
    pub reason: String,
    pub suspended_at: UtcDateTime,
}

#[derive(Debug, Clone)]
pub struct UserUnlockedEvent {
    pub username: String,
    pub email: UnverifiedEmail,
    pub unlocked_at: UtcDateTime,
}

#[derive(Debug, Clone)]
pub struct UserDeactivatedEvent {
    pub username: String,
    pub email: UnverifiedEmail,
    pub deactivated_at: UtcDateTime,
}

#[derive(Debug, Clone)]
pub struct UserReactivatedEvent {
    pub username: String,
    pub email: UnverifiedEmail,
    pub reactivated_at: UtcDateTime,
}

#[derive(Debug, Clone)]
pub struct UserPromotedToAdminEvent {
    pub username: String,
    pub email: VerifiedEmail,
    pub promoted_at: UtcDateTime,
}

#[derive(Debug, Clone)]
pub struct UsernameChangedEvent {
    pub old_username: String,
    pub new_username: String,
    pub email: Email,
    pub changed_at: UtcDateTime,
}

#[derive(Debug, Clone)]
pub struct UserEmailChangedEvent {
    pub new_email: UnverifiedEmail,
    pub username: String,
    pub changed_at: UtcDateTime,
}

#[derive(Debug, Clone)]
pub struct UserEmailVerifiedEvent {
    pub email: VerifiedEmail,
    pub username: String,
    pub verified_at: UtcDateTime,
}

/// The model of a [`UserEvent`]: its kind and its contents, with texts as
/// character sequences.
pub enum UserEventView {
    Created { email: Seq<char>, username: Seq<char>, registered_at: UtcDateTime },
    Suspended {
        username: Seq<char>,
        email: Seq<char>,
        reason: Seq<char>,
        suspended_at: UtcDateTime,
    },
    Unlocked { username: Seq<char>, email: Seq<char>, unlocked_at: UtcDateTime },
    Deactivated { username: Seq<char>, email: Seq<char>, deactivated_at: UtcDateTime },
    Reactivated { username: Seq<char>, email: Seq<char>, reactivated_at: UtcDateTime },
    PromotedToAdmin { username: Seq<char>, email: Seq<char>, promoted_at: UtcDateTime },
    UsernameChanged {
        old_username: Seq<char>,
        new_username: Seq<char>,
        email: EmailView,
        changed_at: UtcDateTime,
    },
    EmailChanged { new_email: Seq<char>, username: Seq<char>, changed_at: UtcDateTime },
    EmailVerified { email: Seq<char>, username: Seq<char>, verified_at: UtcDateTime },
}

impl UserEventView {
    /// When the event happened.
    pub open spec fn occurred_at(self) -> UtcDateTime {
        match self {
            UserEventView::Created { registered_at, .. } => registered_at,
            UserEventView::Suspended { suspended_at, .. } => suspended_at,
            UserEventView::Unlocked { unlocked_at, .. } => unlocked_at,
            UserEventView::Deactivated { deactivated_at, .. } => deactivated_at,
            UserEventView::Reactivated { reactivated_at, .. } => reactivated_at,
            UserEventView::PromotedToAdmin { promoted_at, .. } => promoted_at,
            UserEventView::UsernameChanged { changed_at, .. } => changed_at,
            UserEventView::EmailChanged { changed_at, .. } => changed_at,
            UserEventView::EmailVerified { verified_at, .. } => verified_at,
        }
    }

    /// The name of the event's kind.
    pub open spec fn kind_name(self) -> Seq<char> {
        match self {
            UserEventView::Created { .. } => "Created"@,
            UserEventView::Suspended { .. } => "Suspended"@,
            UserEventView::Unlocked { .. } => "Unlocked"@,
            UserEventView::Deactivated { .. } => "Deactivated"@,
            UserEventView::Reactivated { .. } => "Reactivated"@,
            UserEventView::PromotedToAdmin { .. } => "PromotedToAdmin"@,
            UserEventView::UsernameChanged { .. } => "UsernameChanged"@,
            UserEventView::EmailChanged { .. } => "EmailChanged"@,
            UserEventView::EmailVerified { .. } => "EmailVerified"@,
        }
    }
}

impl View for UserEvent {
    type V = UserEventView;

    open spec fn view(&self) -> UserEventView {
        match self {
            UserEvent::Created(e) => UserEventView::Created {
                email: e.email@,
                username: e.username@,
                registered_at: e.registered_at,
            },
            UserEvent::Suspended(e) => UserEventView::Suspended {
                username: e.username@,
                email: e.email@,
                reason: e.reason@,
                suspended_at: e.suspended_at,
            },
            UserEvent::Unlocked(e) => UserEventView::Unlocked {
                username: e.username@,
                email: e.email@,
                unlocked_at: e.unlocked_at,
            },
            UserEvent::Deactivated(e) => UserEventView::Deactivated {
                username: e.username@,
                email: e.email@,
                deactivated_at: e.deactivated_at,
            },
            UserEvent::Reactivated(e) => UserEventView::Reactivated {
                username: e.username@,
                email: e.email@,
                reactivated_at: e.reactivated_at,
            },
            UserEvent::PromotedToAdmin(e) => UserEventView::PromotedToAdmin {
                username: e.username@,
                email: e.email@,
                promoted_at: e.promoted_at,
            },
            UserEvent::UsernameChanged(e) => UserEventView::UsernameChanged {
                old_username: e.old_username@,
                new_username: e.new_username@,
                email: e.email@,
                changed_at: e.changed_at,
            },
            UserEvent::EmailChanged(e) => UserEventView::EmailChanged {
                new_email: e.new_email@,
                username: e.username@,
                changed_at: e.changed_at,
            },
            UserEvent::EmailVerified(e) => UserEventView::EmailVerified {
                email: e.email@,
                username: e.username@,
                verified_at: e.verified_at,
            },
        }
    }
}

impl UserEvent {
    /// When the event happened.
    pub fn created_at(&self) -> (r: UtcDateTime)
        ensures
            r == self@.occurred_at(),
    {
        match self {
            UserEvent::Created(e) => e.registered_at,
            UserEvent::Suspended(e) => e.suspended_at,
            UserEvent::Unlocked(e) => e.unlocked_at,
            UserEvent::Deactivated(e) => e.deactivated_at,
            UserEvent::Reactivated(e) => e.reactivated_at,
            UserEvent::PromotedToAdmin(e) => e.promoted_at,
            UserEvent::UsernameChanged(e) => e.changed_at,
            UserEvent::EmailChanged(e) => e.changed_at,
            UserEvent::EmailVerified(e) => e.verified_at,
        }
    }

    /// The name of the event's kind.
    pub fn kind_name(&self) -> (r: &'static str)
        ensures
            r@ == self@.kind_name(),
    {
        match self {
            UserEvent::Created(_) => "Created",
            UserEvent::Suspended(_) => "Suspended",
            UserEvent::Unlocked(_) => "Unlocked",
            UserEvent::Deactivated(_) => "Deactivated",
            UserEvent::Reactivated(_) => "Reactivated",
            UserEvent::PromotedToAdmin(_) => "PromotedToAdmin",
            UserEvent::UsernameChanged(_) => "UsernameChanged",
            UserEvent::EmailChanged(_) => "EmailChanged",
            UserEvent::EmailVerified(_) => "EmailVerified",
        }
    }
}

} // verus!
