use vstd::prelude::*;

use crate::infrastructure::uuid_v7::UuidError;
use crate::user::email::{EmailTrait, UnverifiedEmail, VerifiedEmail};
pub use crate::user::error::EmailVerificationError;
use crate::user::error::{UserDomainError, UserUniqueConstraintViolation};
use crate::user::password::{HashedPassword, RawPassword};
use crate::user::user_id::UserId;

verus! {

/// The failure of a password hasher.
#[derive(Debug, Clone, Copy, PartialEq, Eq, Structural)]
pub enum PasswordHashingError {
    HashingFailed,
}

/// Hashes passwords and checks passwords against hashes.
pub trait PasswordHasher {
    fn hash(&self, raw: &RawPassword) -> Result<HashedPassword, PasswordHashingError>;

    fn verify(&self, raw: &RawPassword, hashed: &HashedPassword) -> bool;
}

/// The address of a verifier's answer, or its error.
pub open spec fn verification_answer(r: Result<VerifiedEmail, EmailVerificationError>) -> Result<
    Seq<char>,
    EmailVerificationError,
> {
    match r {
        Ok(email) => Ok(email@),
        Err(e) => Err(e),
    }
}

/// Confirms that a user owns an e-mail address.
pub trait EmailVerifier {
    /// Whether `answer` (a verified address, or an error) is an answer the
    /// verifier may give when asked to verify `address`. A verifier that says
    /// nothing of its answers may give any.
    open spec fn spec_verifies(
        &self,
        address: Seq<char>,
        answer: Result<Seq<char>, EmailVerificationError>,
    ) -> bool {
        true
    }

    fn verify(&self, email: &UnverifiedEmail) -> (r: Result<VerifiedEmail, EmailVerificationError>)
        ensures
            self.spec_verifies(email@, verification_answer(r)),
    ;
}

/// Issues identifiers for new users.
pub trait IdGenerator {
    fn generate(&self) -> UserId;
}

/// Makes identifier generators.
pub trait IdGeneratorFactory {
    type Generator: IdGenerator;

    fn create_user_id_generator(&self) -> Self::Generator;
}

/// The failure of a user identifier generator.
#[derive(Debug, Clone, Copy, PartialEq, Eq, Structural)]
pub enum UserIdGenerationError {
    /// The clock gave a time that the identifier cannot hold.
    GenerationFailed(UuidError),
}

/// Issues identifiers for new users, or tells why it cannot.
pub trait UserIdGenerator {
    /// Whether `answer` is an answer the generator may give. A generator that
    /// says nothing of its answers may give any.
    open spec fn spec_issues(&self, answer: Result<UserId, UserIdGenerationError>) -> bool {
        true
    }

    fn generate(&self) -> (r: Result<UserId, UserIdGenerationError>)
        ensures
            self.spec_issues(r),
    ;
}

/// Makes fallible user identifier generators.
pub trait UserIdGeneratorFactory {
    type Generator: UserIdGenerator;

    fn create_user_id_generator(&self) -> Self::Generator;
}

/// A user name and an e-mail address that no other user has.
pub struct UniqueUserInfo {
    pub(crate) username: String,
    pub(crate) email: UnverifiedEmail,
}

/// An e-mail address that no user has.
pub struct UniqueEmail(pub(crate) UnverifiedEmail);

/// A user name that no user has.
pub struct UniqueUsername(pub(crate) String);

impl UniqueUserInfo {
    pub closed spec fn spec_username(&self) -> Seq<char> {
        self.username@
    }

    pub closed spec fn spec_email(&self) -> Seq<char> {
        self.email@
    }

    pub(crate) fn into_parts(self) -> (r: (String, UnverifiedEmail))
        ensures
            r.0@ == self.spec_username(),
            r.1@ == self.spec_email(),
    {
        (self.username, self.email)
    }

    /// The user name and the address, both found unique.
    pub fn new(email: UniqueEmail, username: UniqueUsername) -> (r: UniqueUserInfo)
        ensures
            r.spec_email() == email@,
            r.spec_username() == username@,
    {
        let UniqueEmail(email) = email;
        let UniqueUsername(username) = username;
        UniqueUserInfo { username, email }
    }
}

impl View for UniqueEmail {
    type V = Seq<char>;

    closed spec fn view(&self) -> Seq<char> {
        self.0@
    }
}

impl View for UniqueUsername {
    type V = Seq<char>;

    closed spec fn view(&self) -> Seq<char> {
        self.0@
    }
}

impl UniqueEmail {
    /// The address as text.
    pub fn as_str(&self) -> (r: &str)
        ensures
            r@ == self@,
    {
        self.0.as_str()
    }

    pub(crate) fn into_inner(self) -> (r: UnverifiedEmail)
        ensures
            r@ == self@,
    {
        self.0
    }
}

impl UniqueUsername {
    pub(crate) fn into_inner(self) -> (r: String)
        ensures
            r@ == self@,
    {
        self.0
    }
}

/// Checks that user names and e-mail addresses are not already taken. The
/// lookups themselves go to the user repository, which the service holds; the
/// answers it got are handed to the checks.
pub struct UserUniquenessService<R> {
    user_repo: R,
}

impl<R> UserUniquenessService<R> {
    pub closed spec fn spec_repository(&self) -> R {
        self.user_repo
    }

    /// The service over `user_repo`.
    pub fn new(user_repo: R) -> (r: UserUniquenessService<R>)
        ensures
            r.spec_repository() == user_repo,
    {
        UserUniquenessService { user_repo }
    }

    /// The repository that the lookups go to.
    pub fn repository(&self) -> (r: &R)
        ensures
            *r == self.spec_repository(),
    {
        &self.user_repo
    }

    /// The address `email` as a unique address, given whether some user already
    /// has it. A taken address is refused before its form is checked.
    pub fn ensure_unique_email(&self, email: &str, already_taken: bool) -> (r: Result<
        UniqueEmail,
        UserDomainError,
    >)
        ensures
            already_taken ==> (r matches Err(
                UserDomainError::AlreadyExists(UserUniqueConstraintViolation::Email { duplicated_email }),
            ) && duplicated_email@ == email@),
            !already_taken && crate::user::email::is_valid_email(email@) ==> (r matches Ok(unique)
                && unique@ == email@),
            !already_taken && !crate::user::email::is_valid_email(email@) ==> (r matches Err(
                UserDomainError::InvalidEmail(e),
            ) && e.invalid_address() == email@),
    {
        if already_taken {
            return Err(
                UserDomainError::AlreadyExists(
                    UserUniqueConstraintViolation::Email { duplicated_email: email.to_owned() },
                ),
            );
        }
        match UnverifiedEmail::new(email) {
            Ok(address) => Ok(UniqueEmail(address)),
            Err(e) => Err(UserDomainError::InvalidEmail(e)),
        }
    }

    /// The name `username` as a unique name, given whether some user already has it.
    pub fn ensure_unique_username(&self, username: &str, already_taken: bool) -> (r: Result<
        UniqueUsername,
        UserDomainError,
    >)
        ensures
            already_taken ==> (r matches Err(
                UserDomainError::AlreadyExists(UserUniqueConstraintViolation::Username { duplicated_name }),
            ) && duplicated_name@ == username@),
            !already_taken ==> (r matches Ok(unique) && unique@ == username@),
    {
        if already_taken {
            return Err(
                UserDomainError::AlreadyExists(
                    UserUniqueConstraintViolation::Username { duplicated_name: username.to_owned() },
                ),
            );
        }
        Ok(UniqueUsername(username.to_owned()))
    }

    /// The name and address of a new user, given whether each is already taken.
    /// The address is checked first.
    pub fn ensure_unique(
        &self,
        username: &str,
        username_taken: bool,
        email: &str,
        email_taken: bool,
    ) -> (r: Result<UniqueUserInfo, UserDomainError>)
        ensures
            email_taken ==> (r matches Err(
                UserDomainError::AlreadyExists(UserUniqueConstraintViolation::Email { duplicated_email }),
            ) && duplicated_email@ == email@),
            !email_taken && !crate::user::email::is_valid_email(email@) ==> (r matches Err(
                UserDomainError::InvalidEmail(e),
            ) && e.invalid_address() == email@),
            !email_taken && crate::user::email::is_valid_email(email@) && username_taken ==> (
            r matches Err(
                UserDomainError::AlreadyExists(UserUniqueConstraintViolation::Username { duplicated_name }),
            ) && duplicated_name@ == username@),
            !email_taken && crate::user::email::is_valid_email(email@) && !username_taken ==> (
            r matches Ok(info) && info.spec_email() == email@ && info.spec_username()
                == username@),
    {
        let email = match self.ensure_unique_email(email, email_taken) {
            Ok(email) => email,
            Err(e) => return Err(e),
        };
        let username = match self.ensure_unique_username(username, username_taken) {
            Ok(username) => username,
            Err(e) => return Err(e),
        };
        Ok(UniqueUserInfo::new(email, username))
    }
}

} // verus!
