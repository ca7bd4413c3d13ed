use vstd::prelude::*;

use crate::text::str_eq;
use crate::user::email::{is_valid_email, EmailTrait, UnverifiedEmail, VerifiedEmail};
use crate::user::error::UserReconstructionError;

verus! {

/// The kinds of state a user can be in, with their stored names.
#[derive(Debug, Clone, Copy, PartialEq, Eq, Structural, Hash)]
pub enum UserStateKind {
    Active,
    SuspendedByAdmin,
    DeactivatedByUser,
    PendingVerification,
    ActiveWithUnverifiedEmail,
}

impl UserStateKind {
    /// The stored name of the kind.
    pub open spec fn name(self) -> Seq<char> {
        match self {
            UserStateKind::Active => "active"@,
            UserStateKind::SuspendedByAdmin => "suspended_by_admin"@,
            UserStateKind::DeactivatedByUser => "deactivated_by_user"@,
            UserStateKind::PendingVerification => "pending_verification"@,
            UserStateKind::ActiveWithUnverifiedEmail => "active_with_unverified_email"@,
        }
    }

    /// The kind whose stored name is `s`, if any.
    pub open spec fn from_name(s: Seq<char>) -> Option<UserStateKind> {
        if s == "active"@ {
            Some(UserStateKind::Active)
        } else if s == "suspended_by_admin"@ {
            Some(UserStateKind::SuspendedByAdmin)
        } else if s == "deactivated_by_user"@ {
            Some(UserStateKind::DeactivatedByUser)
        } else if s == "pending_verification"@ {
            Some(UserStateKind::PendingVerification)
        } else if s == "active_with_unverified_email"@ {
            Some(UserStateKind::ActiveWithUnverifiedEmail)
        } else {
            None
        }
    }

    /// Parsing the stored name of a kind gives the kind back.
    pub proof fn lemma_name_round_trip(kind: UserStateKind)
        ensures
            UserStateKind::from_name(kind.name()) == Some(kind),
    {
        reveal_strlit("active");
        reveal_strlit("suspended_by_admin");
        reveal_strlit("deactivated_by_user");
        reveal_strlit("pending_verification");
        reveal_strlit("active_with_unverified_email");
        assert("active"@.len() == 6);
        assert("suspended_by_admin"@.len() == 18);
        assert("deactivated_by_user"@.len() == 19);
        assert("pending_verification"@.len() == 20);
        assert("active_with_unverified_email"@.len() == 28);
    }

    /// The stored name of the kind.
    pub fn as_str(&self) -> (r: &'static str)
        ensures
            r@ == self.name(),
    {
        match self {
            UserStateKind::Active => "active",
            UserStateKind::SuspendedByAdmin => "suspended_by_admin",
            UserStateKind::DeactivatedByUser => "deactivated_by_user",
            UserStateKind::PendingVerification => "pending_verification",
            UserStateKind::ActiveWithUnverifiedEmail => "active_with_unverified_email",
        }
    }

    /// The stored name of the kind, as an owned string.
    pub fn to_string(&self) -> (r: String)
        ensures
            r@ == self.name(),
    {
        self.as_str().to_owned()
    }

    /// The kind whose stored name is `s`, if any.
    pub fn parse(s: &str) -> (r: Option<UserStateKind>)
        ensures
            r == UserStateKind::from_name(s@),
    {
        if str_eq(s, "active") {
            Some(UserStateKind::Active)
        } else if str_eq(s, "suspended_by_admin") {
            Some(UserStateKind::SuspendedByAdmin)
        } else if str_eq(s, "deactivated_by_user") {
            Some(UserStateKind::DeactivatedByUser)
        } else if str_eq(s, "pending_verification") {
            Some(UserStateKind::PendingVerification)
        } else if str_eq(s, "active_with_unverified_email") {
            Some(UserStateKind::ActiveWithUnverifiedEmail)
        } else {
            None
        }
    }
}

/// The state of a user, with the e-mail address that goes with it. Only an
/// active user's address is verified.
#[derive(Debug)]
pub enum UserState {
    Active { email: VerifiedEmail },
    SuspendedByAdmin { email: UnverifiedEmail },
    DeactivatedByUser { email: UnverifiedEmail },
    PendingVerification { email: UnverifiedEmail },
    ActiveWithUnverifiedEmail { email: UnverifiedEmail },
}

/// The model of a [`UserState`]: its kind and its e-mail address.
pub struct UserStateView {
    pub kind: UserStateKind,
    pub email: Seq<char>,
}

impl View for UserState {
    type V = UserStateView;

    open spec fn view(&self) -> UserStateView {
        match self {
            UserState::Active { email } => UserStateView { kind: UserStateKind::Active, email: email@ },
            UserState::SuspendedByAdmin { email } => UserStateView {
                kind: UserStateKind::SuspendedByAdmin,
                email: email@,
            },
            UserState::DeactivatedByUser { email } => UserStateView {
                kind: UserStateKind::DeactivatedByUser,
                email: email@,
            },
            UserState::PendingVerification { email } => UserStateView {
                kind: UserStateKind::PendingVerification,
                email: email@,
            },
            UserState::ActiveWithUnverifiedEmail { email } => UserStateView {
                kind: UserStateKind::ActiveWithUnverifiedEmail,
                email: email@,
            },
        }
    }
}

impl Clone for UserState {
    fn clone(&self) -> (r: UserState)
        ensures
            r == *self,
    {
        match self {
            UserState::Active { email } => UserState::Active { email: email.clone() },
            UserState::SuspendedByAdmin { email } => UserState::SuspendedByAdmin {
                email: email.clone(),
            },
            UserState::DeactivatedByUser { email } => UserState::DeactivatedByUser {
                email: email.clone(),
            },
            UserState::PendingVerification { email } => UserState::PendingVerification {
                email: email.clone(),
            },
            UserState::ActiveWithUnverifiedEmail { email } => UserState::ActiveWithUnverifiedEmail {
                email: email.clone(),
            },
        }
    }
}

impl PartialEq for UserState {
    fn eq(&self, other: &UserState) -> (r: bool) {
        match (self, other) {
            (UserState::Active { email: a }, UserState::Active { email: b }) => a == b,
            (UserState::SuspendedByAdmin { email: a }, UserState::SuspendedByAdmin { email: b }) => a
                == b,
            (
                UserState::DeactivatedByUser { email: a },
                UserState::DeactivatedByUser { email: b },
            ) => a == b,
            (
                UserState::PendingVerification { email: a },
                UserState::PendingVerification { email: b },
            ) => a == b,
            (
                UserState::ActiveWithUnverifiedEmail { email: a },
                UserState::ActiveWithUnverifiedEmail { email: b },
            ) => a == b,
            _ => false,
        }
    }
}

impl vstd::std_specs::cmp::PartialEqSpecImpl for UserState {
    open spec fn obeys_eq_spec() -> bool {
        true
    }

    open spec fn eq_spec(&self, other: &UserState) -> bool {
        self@ == other@
    }
}

impl Eq for UserState {}

impl UserState {
    /// The stored name of the state's kind.
    pub fn kind(&self) -> (r: &'static str)
        ensures
            r@ == self@.kind.name(),
    {
        self.kind_raw().as_str()
    }

    /// The state's kind.
    pub fn kind_raw(&self) -> (r: UserStateKind)
        ensures
            r == self@.kind,
    {
        match self {
            UserState::Active { .. } => UserStateKind::Active,
            UserState::SuspendedByAdmin { .. } => UserStateKind::SuspendedByAdmin,
            UserState::DeactivatedByUser { .. } => UserStateKind::DeactivatedByUser,
            UserState::PendingVerification { .. } => UserStateKind::PendingVerification,
            UserState::ActiveWithUnverifiedEmail { .. } => UserStateKind::ActiveWithUnverifiedEmail,
        }
    }

    /// The state stored as `status` and `email`, if the status names a kind and
    /// the address is well formed.
    pub open spec fn from_parts(status: Seq<char>, email: Seq<char>) -> Option<UserStateView> {
        match UserStateKind::from_name(status) {
            Some(kind) => if is_valid_email(email) {
                Some(UserStateView { kind, email })
            } else {
                None
            },
            None => None,
        }
    }

    /// Rebuilds a stored state.
    pub fn try_from(raw: UserStateRaw) -> (r: Result<UserState, UserReconstructionError>)
        ensures
            r is Ok <==> UserState::from_parts(raw.status@, raw.email@) is Some,
            r matches Ok(state) ==> UserState::from_parts(raw.status@, raw.email@) == Some(state@),
            UserStateKind::from_name(raw.status@) is None ==> (r matches Err(
                UserReconstructionError::InvalidStatus { invalid_status },
            ) && invalid_status@ == raw.status@),
            UserStateKind::from_name(raw.status@) is Some && !is_valid_email(raw.email@) ==> (
            r matches Err(UserReconstructionError::InvalidEmail(e)) && e.invalid_address()
                == raw.email@),
    {
        let UserStateRaw { status, email } = raw;
        let kind = match UserStateKind::parse(status.as_str()) {
            Some(kind) => kind,
            None => {
                return Err(UserReconstructionError::InvalidStatus { invalid_status: status });
            },
        };
        match kind {
            UserStateKind::Active => match VerifiedEmail::new(email.as_str()) {
                Ok(email) => Ok(UserState::Active { email }),
                Err(e) => Err(UserReconstructionError::InvalidEmail(e)),
            },
            UserStateKind::SuspendedByAdmin => match UnverifiedEmail::new(email.as_str()) {
                Ok(email) => Ok(UserState::SuspendedByAdmin { email }),
                Err(e) => Err(UserReconstructionError::InvalidEmail(e)),
            },
            UserStateKind::DeactivatedByUser => match UnverifiedEmail::new(email.as_str()) {
                Ok(email) => Ok(UserState::DeactivatedByUser { email }),
                Err(e) => Err(UserReconstructionError::InvalidEmail(e)),
            },
            UserStateKind::PendingVerification => match UnverifiedEmail::new(email.as_str()) {
                Ok(email) => Ok(UserState::PendingVerification { email }),
                Err(e) => Err(UserReconstructionError::InvalidEmail(e)),
            },
            UserStateKind::ActiveWithUnverifiedEmail => match UnverifiedEmail::new(email.as_str()) {
                Ok(email) => Ok(UserState::ActiveWithUnverifiedEmail { email }),
                Err(e) => Err(UserReconstructionError::InvalidEmail(e)),
            },
        }
    }

    /// A state stored by its kind's name and its address is rebuilt as it was,
    /// whenever the address is well formed.
    pub proof fn lemma_stored_state_round_trip(state: UserStateView)
        requires
            is_valid_email(state.email),
        ensures
            UserState::from_parts(state.kind.name(), state.email) == Some(state),
    {
        UserStateKind::lemma_name_round_trip(state.kind);
    }
}

/// A user state as stored: the name of its kind and its e-mail address.
pub struct UserStateRaw {
    pub status: String,
    pub email: String,
}

} // verus!
