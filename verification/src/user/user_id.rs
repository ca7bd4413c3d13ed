use vstd::prelude::*;

verus! {

/// Identifier of a user: the 128-bit value of its UUID.
#[derive(Clone, Copy, Debug, PartialEq, Eq, Structural, Hash)]
pub struct UserId(u128);

impl View for UserId {
    type V = u128;

    closed spec fn view(&self) -> u128 {
        self.0
    }
}

impl UserId {
    /// The identifier whose UUID has the given 128-bit value.
    pub fn from_u128(value: u128) -> (r: UserId)
        ensures
            r@ == value,
    {
        UserId(value)
    }

    /// The 128-bit value of the identifier's UUID.
    pub fn as_u128(&self) -> (r: u128)
        ensures
            r == self@,
    {
        self.0
    }

    /// Two identifiers are the same exactly when their values are.
    pub proof fn lemma_view_injective(a: UserId, b: UserId)
        ensures
            a == b <==> a@ == b@,
    {
    }
}

} // verus!
