use vstd::prelude::*;

use crate::shared::random_id::{new_random_uuid, uuid_variant, uuid_version};

verus! {

/// Identifier of an outbox event: the 128-bit value of its UUID.
#[derive(Clone, Copy, Debug, PartialEq, Eq, Structural, Hash)]
pub struct OutboxEventId(u128);

impl View for OutboxEventId {
    type V = u128;

    closed spec fn view(&self) -> u128 {
        self.0
    }
}

impl OutboxEventId {
    /// The identifier whose UUID has the given 128-bit value.
    pub fn from_u128(value: u128) -> (r: OutboxEventId)
        ensures
            r@ == value,
    {
        OutboxEventId(value)
    }

    /// The 128-bit value of the identifier's UUID.
    pub fn as_u128(&self) -> (r: u128)
        ensures
            r == self@,
    {
        self.0
    }

    /// A fresh random identifier: a version 4 UUID.
    pub fn new_random() -> (r: OutboxEventId)
        ensures
            uuid_version(r@) == 4,
            uuid_variant(r@) == 2,
    {
        OutboxEventId(new_random_uuid())
    }

    /// Two identifiers are the same exactly when their values are.
    pub proof fn lemma_view_injective(a: OutboxEventId, b: OutboxEventId)
        ensures
            a == b <==> a@ == b@,
    {
    }
}

} // verus!
