use vstd::prelude::*;
use validator::ValidateEmail;

verus! {

/// Whether `address` is a well-formed e-mail address, by the rules of the
/// `validator` crate's e-mail check (the HTML5 form of an address).
pub uninterp spec fn is_valid_email(address: Seq<char>) -> bool;

/// `ValidateEmail::validate_email` of the `validator` crate on a string slice:
/// whether the text is a well-formed e-mail address. The answer depends on the
/// text alone; it is named [`is_valid_email`].
#[verifier::external_body]
fn validate_email_address(value: &str) -> (r: bool)
    ensures
        r == is_valid_email(value@),
{
    value.validate_email()
}

/// An e-mail address whose ownership has been verified.
#[derive(Debug)]
pub struct VerifiedEmail(String);

/// An e-mail address whose ownership has not been verified.
#[derive(Debug)]
pub struct UnverifiedEmail(String);

impl View for VerifiedEmail {
    type V = Seq<char>;

    closed spec fn view(&self) -> Seq<char> {
        self.0@
    }
}

impl View for UnverifiedEmail {
    type V = Seq<char>;

    closed spec fn view(&self) -> Seq<char> {
        self.0@
    }
}

impl Clone for VerifiedEmail {
    fn clone(&self) -> (r: VerifiedEmail)
        ensures
            r == *self,
    {
        VerifiedEmail(self.0.clone())
    }
}

impl Clone for UnverifiedEmail {
    fn clone(&self) -> (r: UnverifiedEmail)
        ensures
            r == *self,
    {
        UnverifiedEmail(self.0.clone())
    }
}

impl PartialEq for VerifiedEmail {
    fn eq(&self, other: &VerifiedEmail) -> (r: bool) {
        self.0 == other.0
    }
}

impl vstd::std_specs::cmp::PartialEqSpecImpl for VerifiedEmail {
    open spec fn obeys_eq_spec() -> bool {
        true
    }

    open spec fn eq_spec(&self, other: &VerifiedEmail) -> bool {
        self@ == other@
    }
}

impl Eq for VerifiedEmail {}

impl PartialEq for UnverifiedEmail {
    fn eq(&self, other: &UnverifiedEmail) -> (r: bool) {
        self.0 == other.0
    }
}

impl vstd::std_specs::cmp::PartialEqSpecImpl for UnverifiedEmail {
    open spec fn obeys_eq_spec() -> bool {
        true
    }

    open spec fn eq_spec(&self, other: &UnverifiedEmail) -> bool {
        self@ == other@
    }
}

impl Eq for UnverifiedEmail {}

impl VerifiedEmail {
    /// The same address, no longer counted as verified.
    pub fn unverify(&self) -> (r: UnverifiedEmail)
        ensures
            r@ == self@,
    {
        UnverifiedEmail(self.0.clone())
    }

    /// The address as text.
    pub fn to_string(&self) -> (r: String)
        ensures
            r@ == self@,
    {
        self.0.clone()
    }
}

impl UnverifiedEmail {
    /// The address as text.
    pub fn to_string(&self) -> (r: String)
        ensures
            r@ == self@,
    {
        self.0.clone()
    }
}

/// An e-mail address together with whether it has been verified.
#[derive(Debug)]
pub enum Email {
    Verified(VerifiedEmail),
    Unverified(UnverifiedEmail),
}

/// The model of an [`Email`].
pub struct EmailView {
    pub verified: bool,
    pub address: Seq<char>,
}

impl View for Email {
    type V = EmailView;

    open spec fn view(&self) -> EmailView {
        match self {
            Email::Verified(e) => EmailView { verified: true, address: e@ },
            Email::Unverified(e) => EmailView { verified: false, address: e@ },
        }
    }
}

impl Clone for Email {
    fn clone(&self) -> (r: Email)
        ensures
            r == *self,
    {
        match self {
            Email::Verified(e) => Email::Verified(e.clone()),
            Email::Unverified(e) => Email::Unverified(e.clone()),
        }
    }
}

impl PartialEq for Email {
    fn eq(&self, other: &Email) -> (r: bool) {
        match (self, other) {
            (Email::Verified(a), Email::Verified(b)) => a == b,
            (Email::Unverified(a), Email::Unverified(b)) => a == b,
            _ => false,
        }
    }
}

impl vstd::std_specs::cmp::PartialEqSpecImpl for Email {
    open spec fn obeys_eq_spec() -> bool {
        true
    }

    open spec fn eq_spec(&self, other: &Email) -> bool {
        self@ == other@
    }
}

impl Eq for Email {}

impl Email {
    /// The address as text.
    pub fn as_str(&self) -> (r: &str)
        ensures
            r@ == self@.address,
    {
        match self {
            Email::Verified(email) => email.as_str(),
            Email::Unverified(email) => email.as_str(),
        }
    }
}

/// The error of a malformed e-mail address.
#[derive(Debug, PartialEq)]
pub enum EmailFormatError {
    InvalidFormat { invalid_email: String },
}

impl EmailFormatError {
    /// The malformed address.
    pub open spec fn invalid_address(&self) -> Seq<char> {
        match self {
            EmailFormatError::InvalidFormat { invalid_email } => invalid_email@,
        }
    }
}

/// Checks that `value` is a well-formed e-mail address.
pub fn check_email_format(value: &str) -> (r: Result<(), EmailFormatError>)
    ensures
        r is Ok <==> is_valid_email(value@),
        r matches Err(e) ==> e.invalid_address() == value@,
{
    if validate_email_address(value) {
        Ok(())
    } else {
        Err(EmailFormatError::InvalidFormat { invalid_email: value.to_owned() })
    }
}

/// What verified and unverified addresses have in common.
pub trait EmailTrait: Sized + View<V = Seq<char>> {
    /// The address `value`, if it is well formed.
    fn new(value: &str) -> (r: Result<Self, EmailFormatError>)
        ensures
            r is Ok <==> is_valid_email(value@),
            r matches Ok(email) ==> email@ == value@,
            r matches Err(e) ==> e.invalid_address() == value@,
    ;

    /// The address as text.
    fn as_str(&self) -> (r: &str)
        ensures
            r@ == self@,
    ;
}

impl EmailTrait for VerifiedEmail {
    fn new(value: &str) -> (r: Result<VerifiedEmail, EmailFormatError>) {
        match check_email_format(value) {
            Ok(()) => Ok(VerifiedEmail(value.to_owned())),
            Err(e) => Err(e),
        }
    }

    fn as_str(&self) -> (r: &str) {
        self.0.as_str()
    }
}

impl EmailTrait for UnverifiedEmail {
    fn new(value: &str) -> (r: Result<UnverifiedEmail, EmailFormatError>) {
        match check_email_format(value) {
            Ok(()) => Ok(UnverifiedEmail(value.to_owned())),
            Err(e) => Err(e),
        }
    }

    fn as_str(&self) -> (r: &str) {
        self.0.as_str()
    }
}

} // verus!
