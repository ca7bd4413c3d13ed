use uuid::Uuid;
use vstd::prelude::*;

verus! {

/// The version nibble of a UUID given by its 128-bit value.
pub open spec fn uuid_version(value: u128) -> u128 {
    (value >> 76u128) & 0xfu128
}

/// The variant bits of a UUID given by its 128-bit value (2 for RFC 9562).
pub open spec fn uuid_variant(value: u128) -> u128 {
    (value >> 62u128) & 0x3u128
}

/// `Uuid::new_v4` of the `uuid` crate, as a 128-bit value: random bits with the
/// version nibble set to 4 and the variant bits set to the RFC 9562 variant.
/// Which random bits come out is not stated.
#[verifier::external_body]
pub(crate) fn new_random_uuid() -> (r: u128)
    ensures
        uuid_version(r) == 4,
        uuid_variant(r) == 2,
{
    Uuid::new_v4().as_u128()
}

} // verus!
