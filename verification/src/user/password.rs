use vstd::prelude::*;
use vstd::utf8::encode_utf8;

verus! {

/// A password as the user typed it.
#[derive(Debug, Clone)]
pub struct RawPassword(String);

/// The ways a password can break the password policy.
#[derive(Debug, Clone, Copy, PartialEq, Eq, Structural)]
pub enum PasswordPolicyViolation {
    TooShort,
}

/// The shortest password the policy accepts, in characters.
pub const MIN_PASSWORD_CHARS: usize = 8;

impl View for RawPassword {
    type V = Seq<char>;

    closed spec fn view(&self) -> Seq<char> {
        self.0@
    }
}

/// Whether `value` has at least `n` characters.
fn has_at_least_chars(value: &str, n: usize) -> (r: bool)
    ensures
        r == (value@.len() >= n),
{
    broadcast use vstd::string::axiom_spec_iter, vstd::string::next_postcondition;

    let mut chars = value.chars();
    let mut count: usize = 0;
    while count < n
        invariant
            count <= n,
            count <= value@.len(),
            vstd::std_specs::iter::IteratorSpec::obeys_prophetic_iter_laws(&chars),
            vstd::std_specs::iter::IteratorSpec::remaining(&chars) == value@.subrange(count as int, value@.len() as int),
        decreases n - count,
    {
        match chars.next() {
            Some(_) => {
                count = count + 1;
            },
            None => {
                return false;
            },
        }
    }
    true
}

impl RawPassword {
    /// The password `value`, if it has at least [`MIN_PASSWORD_CHARS`] characters.
    pub fn new(value: &str) -> (r: Result<RawPassword, PasswordPolicyViolation>)
        ensures
            r is Ok <==> value@.len() >= MIN_PASSWORD_CHARS,
            r matches Ok(p) ==> p@ == value@,
            r matches Err(e) ==> e == PasswordPolicyViolation::TooShort,
    {
        if has_at_least_chars(value, MIN_PASSWORD_CHARS) {
            Ok(RawPassword(value.to_owned()))
        } else {
            Err(PasswordPolicyViolation::TooShort)
        }
    }

    /// The password's UTF-8 bytes.
    pub fn as_bytes(&self) -> (r: &[u8])
        ensures
            r@ == encode_utf8(self@),
    {
        self.0.as_str().as_bytes()
    }
}

/// A password hash in PHC string form.
#[derive(Debug)]
pub struct HashedPassword(String);

impl View for HashedPassword {
    type V = Seq<char>;

    closed spec fn view(&self) -> Seq<char> {
        self.0@
    }
}

impl Clone for HashedPassword {
    fn clone(&self) -> (r: HashedPassword)
        ensures
            r == *self,
    {
        HashedPassword(self.0.clone())
    }
}

impl PartialEq for HashedPassword {
    fn eq(&self, other: &HashedPassword) -> (r: bool) {
        self.0 == other.0
    }
}

impl vstd::std_specs::cmp::PartialEqSpecImpl for HashedPassword {
    open spec fn obeys_eq_spec() -> bool {
        true
    }

    open spec fn eq_spec(&self, other: &HashedPassword) -> bool {
        self@ == other@
    }
}

impl Eq for HashedPassword {}

impl From<HashedPassword> for String {
    fn from(hashed: HashedPassword) -> (r: String)
        ensures
            r@ == hashed@,
    {
        hashed.0
    }
}

impl vstd::std_specs::convert::FromSpecImpl<HashedPassword> for String {
    open spec fn obeys_from_spec() -> bool {
        true
    }

    open spec fn from_spec(hashed: HashedPassword) -> String {
        hashed.text()
    }
}

impl HashedPassword {
    /// The hash as a string.
    pub closed spec fn text(self) -> String {
        self.0
    }

    /// The hash stored as `hash`.
    pub fn from_raw_str(hash: &str) -> (r: HashedPassword)
        ensures
            r@ == hash@,
    {
        HashedPassword(hash.to_owned())
    }

    /// The hash as text.
    pub fn as_str(&self) -> (r: &str)
        ensures
            r@ == self@,
    {
        self.0.as_str()
    }

    /// The hash as an owned string.
    pub fn to_string(&self) -> (r: String)
        ensures
            r@ == self@,
    {
        self.0.clone()
    }
}

} // verus!
