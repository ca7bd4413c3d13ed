use vstd::prelude::*;

use crate::user::email::EmailFormatError;
use crate::user::password::PasswordPolicyViolation;
use crate::user::state::{UserState, UserStateKind};

verus! {

/// The errors of the user domain.
#[derive(Debug, PartialEq)]
pub enum UserDomainError {
    InvalidEmail(EmailFormatError),
    PasswordPolicyViolation(PasswordPolicyViolation),
    AlreadyExists(UserUniqueConstraintViolation),
    EmailVerificationError(EmailVerificationError),
    ModificationWithInvalidStateError(ModificationWithInvalidStateError),
    StateTransitionError(UserStateTransitionError),
}

/// A user name or an e-mail address that another user already has.
#[derive(Debug, PartialEq, Eq)]
pub enum UserUniqueConstraintViolation {
    Username { duplicated_name: String },
    Email { duplicated_email: String },
}

/// A change that the user's current state does not allow.
#[derive(Debug, Clone, Copy, PartialEq, Eq, Structural)]
pub enum ModificationWithInvalidStateError {
    EmailModification { state: UserStateKind },
    UsernameModification { state: UserStateKind },
}

impl ModificationWithInvalidStateError {
    /// The message shown to clients for this error.
    pub fn message_for_client(&self) -> (r: &'static str)
        ensures
            r@ == match self {
                ModificationWithInvalidStateError::EmailModification { .. } =>
                    "該当ユーザーはメールアドレスの変更ができない状態です"@,
                ModificationWithInvalidStateError::UsernameModification { .. } =>
                    "該当ユーザーはユーザー名の変更ができない状態です"@,
            },
    {
        match self {
            ModificationWithInvalidStateError::EmailModification { state: _ } => {
                "該当ユーザーはメールアドレスの変更ができない状態です"
            },
            ModificationWithInvalidStateError::UsernameModification { state: _ } => {
                "該当ユーザーはユーザー名の変更ができない状態です"
            },
        }
    }
}

/// A change of state that the user's current state does not allow.
#[derive(Debug, PartialEq, Eq)]
pub enum UserStateTransitionError {
    AlreadyDeactivated { to: UserStateKind },
    AlreadySuspended { to: UserStateKind },
    NotVerified { from: UserState },
    NotSuspended { from: UserState },
}

/// The failure of an e-mail verifier. It has no cases yet: no value of it
/// exists, so a verification never fails.
#[derive(Debug, PartialEq)]
pub struct EmailVerificationError {
    unreachable: (),
}

impl EmailVerificationError {
    /// No value of the type exists.
    #[verifier::type_invariant]
    pub(crate) open spec fn uninhabited(self) -> bool {
        false
    }
}

/// A stored user that cannot be rebuilt.
#[derive(Debug, PartialEq)]
pub enum UserReconstructionError {
    InvalidEmail(EmailFormatError),
    InvalidStatus { invalid_status: String },
    InvalidRole { invalid_role: String },
}

} // verus!
