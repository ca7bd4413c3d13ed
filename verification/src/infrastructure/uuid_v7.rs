use std::sync::Mutex;
use uuid::{ContextV7, NoContext, Timestamp, Uuid};
use vstd::prelude::*;

use crate::shared::random_id::{uuid_variant, uuid_version};
use crate::time::UtcDateTime;

verus! {

#[verifier::external_type_specification]
#[verifier::external_body]
pub struct ExContextV7(ContextV7);

#[verifier::external_type_specification]
#[verifier::external_body]
#[verifier::reject_recursive_types(T)]
pub struct ExMutex<T: ?Sized>(Mutex<T>);

#[verifier::external_type_specification]
#[verifier::external_body]
pub struct ExNoContext(NoContext);

/// The largest timestamp that a version 7 UUID can hold: 48 bits of
/// milliseconds since the Unix epoch (a moment in the year 10889).
pub const MAX_UUID_V7_MILLIS: i64 = 0x0000_FFFF_FFFF_FFFF;

/// A timestamp that a version 7 UUID cannot hold.
#[derive(Debug, Clone, Copy, PartialEq, Eq, Structural)]
pub enum UuidError {
    TimestampOutOfRange(i64),
}

/// The whole seconds and the nanoseconds, rounded down to the millisecond, of
/// `now`, if a version 7 UUID can hold its timestamp.
pub fn calculate_v7_timestamp_parts(now: UtcDateTime) -> (r: Result<(u64, u32), UuidError>)
    ensures
        i64::MIN <= now.epoch_millis() <= i64::MAX,
        (0 <= now.epoch_millis() <= MAX_UUID_V7_MILLIS) ==> (r matches Ok((seconds, nanos)) && seconds
            == now.epoch_millis() / 1000 && nanos == (now.epoch_millis() % 1000) * 1_000_000),
        !(0 <= now.epoch_millis() <= MAX_UUID_V7_MILLIS) ==> r == Err::<(u64, u32), _>(
            UuidError::TimestampOutOfRange(now.epoch_millis() as i64),
        ),
{
    let now_millis = now.timestamp_millis();
    if !(0 <= now_millis && now_millis <= MAX_UUID_V7_MILLIS) {
        return Err(UuidError::TimestampOutOfRange(now_millis));
    }
    let millis = now_millis as u64;
    let seconds = millis / 1000;
    let nanos = ((millis % 1000) as u32) * 1_000_000;
    Ok((seconds, nanos))
}

/// The number that the 48-bit timestamp field of a version 7 UUID holds for
/// the time `seconds` and `nanos` after the epoch: its milliseconds, modulo 2^48.
pub open spec fn v7_timestamp_field(seconds: u64, nanos: u32) -> int {
    (seconds * 1000 + nanos / 1_000_000) % 0x1_0000_0000_0000
}

/// `Uuid::new_v7` of the `uuid` crate on `Timestamp::from_unix(context, seconds,
/// nanos)` with a shared `ContextV7`, as a 128-bit value. The result is a
/// version 7 UUID of the RFC 9562 variant. Its timestamp and counter come from
/// the context, which keeps successive identifiers increasing and for that may
/// move the time forward past earlier calls; its remaining bits are random:
/// neither is stated.
#[verifier::external_body]
fn new_v7_with_shared_context(context: &Mutex<ContextV7>, seconds: u64, nanos: u32) -> (r: u128)
    ensures
        uuid_version(r) == 7,
        uuid_variant(r) == 2,
{
    Uuid::new_v7(Timestamp::from_unix(context, seconds, nanos)).as_u128()
}

/// `Uuid::new_v7` of the `uuid` crate on `Timestamp::from_unix(NoContext,
/// seconds, nanos)`, as a 128-bit value: a version 7 UUID of the RFC 9562
/// variant whose timestamp field holds the given time's milliseconds (modulo
/// 2^48, where `new_v7` does not saturate), with no counter and random bits
/// otherwise, which are not stated.
#[verifier::external_body]
fn new_v7_without_context(context: &NoContext, seconds: u64, nanos: u32) -> (r: u128)
    ensures
        uuid_version(r) == 7,
        uuid_variant(r) == 2,
        nanos < 1_000_000_000 && seconds * 1000 + nanos / 1_000_000 <= u64::MAX ==> r >> 80u128
            == v7_timestamp_field(seconds, nanos),
{
    Uuid::new_v7(Timestamp::from_unix(context, seconds, nanos)).as_u128()
}

/// The context that a version 7 UUID is made with, which gives its counter and
/// may move its time.
pub trait V7Context {
    /// Whether the UUIDs made with this context carry exactly the time they are
    /// given.
    spec fn spec_keeps_time(&self) -> bool;

    /// A version 7 UUID for the time `seconds` and `nanos` after the epoch, as a
    /// 128-bit value.
    fn new_v7_uuid(&self, seconds: u64, nanos: u32) -> (r: u128)
        ensures
            uuid_version(r) == 7,
            uuid_variant(r) == 2,
            self.spec_keeps_time() && nanos < 1_000_000_000 && seconds * 1000 + nanos / 1_000_000
                <= u64::MAX ==> r >> 80u128 == v7_timestamp_field(seconds, nanos),
    ;
}

impl V7Context for Mutex<ContextV7> {
    /// A shared context may move the time forward to keep its UUIDs increasing.
    open spec fn spec_keeps_time(&self) -> bool {
        false
    }

    fn new_v7_uuid(&self, seconds: u64, nanos: u32) -> (r: u128) {
        new_v7_with_shared_context(self, seconds, nanos)
    }
}

impl V7Context for NoContext {
    open spec fn spec_keeps_time(&self) -> bool {
        true
    }

    fn new_v7_uuid(&self, seconds: u64, nanos: u32) -> (r: u128) {
        new_v7_without_context(self, seconds, nanos)
    }
}

/// A version 7 UUID for the time `seconds` and `nanos` after the epoch, made
/// with `context`. With a context that keeps the time, its timestamp field holds
/// the given time's milliseconds.
pub fn generate_uuid_v7_with_parts<C: V7Context>(context: &C, seconds: u64, nanos: u32) -> (r:
    u128)
    ensures
        uuid_version(r) == 7,
        uuid_variant(r) == 2,
        context.spec_keeps_time() && nanos < 1_000_000_000 && seconds * 1000 + nanos / 1_000_000
            <= u64::MAX ==> r >> 80u128 == v7_timestamp_field(seconds, nanos),
{
    context.new_v7_uuid(seconds, nanos)
}

/// A version 7 UUID for the moment `now`, if a version 7 UUID can hold its
/// timestamp. With a context that keeps the time, its timestamp field holds
/// `now` in milliseconds.
pub fn generate_uuid_v7<C: V7Context>(now: UtcDateTime, context: &C) -> (r: Result<u128, UuidError>)
    ensures
        i64::MIN <= now.epoch_millis() <= i64::MAX,
        (0 <= now.epoch_millis() <= MAX_UUID_V7_MILLIS) ==> (r matches Ok(v) && uuid_version(v) == 7
            && uuid_variant(v) == 2 && (context.spec_keeps_time() ==> v >> 80u128
            == now.epoch_millis())),
        !(0 <= now.epoch_millis() <= MAX_UUID_V7_MILLIS) ==> r == Err::<u128, _>(
            UuidError::TimestampOutOfRange(now.epoch_millis() as i64),
        ),
{
    let (seconds, nanos) = match calculate_v7_timestamp_parts(now) {
        Ok(parts) => parts,
        Err(e) => return Err(e),
    };
    Ok(generate_uuid_v7_with_parts(context, seconds, nanos))
}

} // verus!
