use vstd::prelude::*;

use crate::text::str_eq;
use crate::user::error::UserReconstructionError;

verus! {

/// The role of a user. A new user is an ordinary user.
#[derive(Clone, Copy, Debug, PartialEq, Eq, Structural, Hash)]
pub enum UserRole {
    Admin,
    User,
}

impl Default for UserRole {
    fn default() -> (r: UserRole)
        ensures
            r == UserRole::User,
    {
        UserRole::User
    }
}

impl UserRole {
    /// The stored name of the role.
    pub open spec fn name(self) -> Seq<char> {
        match self {
            UserRole::Admin => "admin"@,
            UserRole::User => "user"@,
        }
    }

    /// The role whose stored name is `s`, if any.
    pub open spec fn from_name(s: Seq<char>) -> Option<UserRole> {
        if s == "admin"@ {
            Some(UserRole::Admin)
        } else if s == "user"@ {
            Some(UserRole::User)
        } else {
            None
        }
    }

    /// The stored name of the role.
    pub fn as_str(&self) -> (r: &'static str)
        ensures
            r@ == self.name(),
    {
        match self {
            UserRole::Admin => "admin",
            UserRole::User => "user",
        }
    }

    /// The stored name of the role, as an owned string.
    pub fn to_string(&self) -> (r: String)
        ensures
            r@ == self.name(),
    {
        self.as_str().to_owned()
    }

    /// Parses a stored role name.
    pub fn from_str(s: &str) -> (r: Result<UserRole, UserReconstructionError>)
        ensures
            r is Ok <==> UserRole::from_name(s@) is Some,
            r matches Ok(role) ==> UserRole::from_name(s@) == Some(role),
            r matches Err(e) ==> (e matches UserReconstructionError::InvalidRole { invalid_role }
                && invalid_role@ == s@),
    {
        if str_eq(s, "admin") {
            Ok(UserRole::Admin)
        } else if str_eq(s, "user") {
            Ok(UserRole::User)
        } else {
            Err(UserReconstructionError::InvalidRole { invalid_role: s.to_owned() })
        }
    }

    /// Parses a stored role name; the same as [`UserRole::from_str`].
    pub fn try_from(value: &str) -> (r: Result<UserRole, UserReconstructionError>)
        ensures
            r is Ok <==> UserRole::from_name(value@) is Some,
            r matches Ok(role) ==> UserRole::from_name(value@) == Some(role),
            r matches Err(e) ==> (e matches UserReconstructionError::InvalidRole { invalid_role }
                && invalid_role@ == value@),
    {
        UserRole::from_str(value)
    }

    /// Parsing the stored name of a role gives the role back, and no two roles
    /// share a name.
    pub proof fn lemma_name_round_trip(role: UserRole)
        ensures
            UserRole::from_name(role.name()) == Some(role),
    {
        reveal_strlit("admin");
        reveal_strlit("user");
        assert("admin"@.len() != "user"@.len());
    }
}

} // verus!
