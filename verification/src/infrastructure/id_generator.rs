use std::sync::Mutex;
use uuid::ContextV7;
use vstd::prelude::*;

use crate::infrastructure::uuid_v7::{generate_uuid_v7, UuidError, MAX_UUID_V7_MILLIS};
use crate::shared::outbox_event::{
    OutboxEventId, OutboxEventIdGenerationError, OutboxEventIdGenerator,
    OutboxEventIdGeneratorFactory,
};
use crate::shared::random_id::{uuid_variant, uuid_version};
use crate::time::{Clock, UtcDateTime};
use crate::user::service::{UserIdGenerationError, UserIdGenerator, UserIdGeneratorFactory};
use crate::user::user_id::UserId;

verus! {

/// `ContextV7::new` of the `uuid` crate: a fresh context that keeps the version 7
/// UUIDs made with it increasing. The context is opaque; nothing is stated.
#[verifier::external_body]
fn new_context_v7() -> (r: ContextV7) {
    ContextV7::new()
}

/// `Mutex::new` of std: a lock around `value`. The lock is opaque; nothing is stated.
#[verifier::external_body]
fn new_mutex<T>(value: T) -> (r: Mutex<T>) {
    Mutex::new(value)
}

/// What a version 7 UUID made for the time `now` comes to: a version 7 UUID
/// when `now` is within the range that such a UUID holds, the error for `now`
/// otherwise.
pub open spec fn v7_outcome_for(now: UtcDateTime, r: Result<u128, UuidError>) -> bool {
    &&& (0 <= now.epoch_millis() <= MAX_UUID_V7_MILLIS) ==> (r matches Ok(v) && uuid_version(v)
        == 7 && uuid_variant(v) == 2)
    &&& !(0 <= now.epoch_millis() <= MAX_UUID_V7_MILLIS) ==> r == Err::<u128, _>(
        UuidError::TimestampOutOfRange(now.epoch_millis() as i64),
    )
}

/// A generator's answer as a UUID value or the UUID error.
pub open spec fn user_id_answer(r: Result<UserId, UserIdGenerationError>) -> Result<u128, UuidError> {
    match r {
        Ok(id) => Ok(id@),
        Err(UserIdGenerationError::GenerationFailed(e)) => Err(e),
    }
}

/// A generator's answer as a UUID value or the UUID error.
pub open spec fn outbox_event_id_answer(
    r: Result<OutboxEventId, OutboxEventIdGenerationError>,
) -> Result<u128, UuidError> {
    match r {
        Ok(id) => Ok(id@),
        Err(OutboxEventIdGenerationError::GenerationFailed(e)) => Err(e),
    }
}

/// A version 7 UUID for the time the clock tells, from the generator's own
/// context, or the error for a time that such a UUID cannot hold.
fn time_ordered_uuid<C: Clock>(clock: &C, context: &Mutex<ContextV7>) -> (r: Result<u128, UuidError>)
    ensures
        r matches Ok(v) ==> uuid_version(v) == 7 && uuid_variant(v) == 2,
        r matches Err(UuidError::TimestampOutOfRange(millis)) ==> millis < 0 || millis
            > MAX_UUID_V7_MILLIS,
        exists|t: UtcDateTime| clock.spec_reads(t) && #[trigger] v7_outcome_for(t, r),
{
    let now = clock.now();
    let r = generate_uuid_v7(now, context);
    assert(v7_outcome_for(now, r));
    r
}

/// Issues time-ordered (version 7 UUID) user identifiers from the time its
/// clock tells.
pub struct UuidUserIdGenerator<C: Clock> {
    clock: C,
    context: Mutex<ContextV7>,
}

impl<C: Clock> UuidUserIdGenerator<C> {
    /// The generator's clock.
    pub closed spec fn spec_clock(&self) -> C {
        self.clock
    }

    pub fn new(clock: C) -> (r: UuidUserIdGenerator<C>)
        ensures
            r.spec_clock() == clock,
    {
        UuidUserIdGenerator { clock, context: new_mutex(new_context_v7()) }
    }
}

impl<C: Clock> UserIdGenerator for UuidUserIdGenerator<C> {
    /// A version 7 identifier, or the error for a time that one cannot hold.
    open spec fn spec_issues(&self, answer: Result<UserId, UserIdGenerationError>) -> bool {
        &&& answer matches Ok(id) ==> uuid_version(id@) == 7 && uuid_variant(id@) == 2
        &&& answer matches Err(UserIdGenerationError::GenerationFailed(
            UuidError::TimestampOutOfRange(millis),
        )) ==> millis < 0 || millis > MAX_UUID_V7_MILLIS
        &&& exists|t: UtcDateTime|
            self.spec_clock().spec_reads(t) && #[trigger] v7_outcome_for(t, user_id_answer(answer))
    }

    fn generate(&self) -> (r: Result<UserId, UserIdGenerationError>)
        ensures
            r matches Ok(id) ==> uuid_version(id@) == 7 && uuid_variant(id@) == 2,
            r matches Err(UserIdGenerationError::GenerationFailed(
                UuidError::TimestampOutOfRange(millis),
            )) ==> millis < 0 || millis > MAX_UUID_V7_MILLIS,
            exists|t: UtcDateTime|
                self.spec_clock().spec_reads(t) && #[trigger] v7_outcome_for(t, user_id_answer(r)),
    {
        let uuid = time_ordered_uuid(&self.clock, &self.context);
        let r = match uuid {
            Ok(value) => Ok(UserId::from_u128(value)),
            Err(e) => Err(UserIdGenerationError::GenerationFailed(e)),
        };
        assert(user_id_answer(r) == uuid);
        r
    }
}

/// Makes [`UuidUserIdGenerator`]s that share one clock.
pub struct UuidUserIdGeneratorFactory<C: Clock + Clone> {
    clock: C,
}

impl<C: Clock + Clone> UuidUserIdGeneratorFactory<C> {
    /// The factory's clock.
    pub closed spec fn spec_clock(&self) -> C {
        self.clock
    }

    pub fn new(clock: C) -> (r: UuidUserIdGeneratorFactory<C>)
        ensures
            r.spec_clock() == clock,
    {
        UuidUserIdGeneratorFactory { clock }
    }
}

impl<C: Clock + Clone> UserIdGeneratorFactory for UuidUserIdGeneratorFactory<C> {
    type Generator = UuidUserIdGenerator<C>;

    /// A generator on a clone of the factory's clock, with a context of its own.
    fn create_user_id_generator(&self) -> (r: UuidUserIdGenerator<C>)
        ensures
            cloned::<C>(self.spec_clock(), r.spec_clock()),
    {
        UuidUserIdGenerator::new(self.clock.clone())
    }
}

/// Issues time-ordered (version 7 UUID) outbox event identifiers from the time
/// its clock tells.
pub struct UuidOutboxIdGenerator<C: Clock> {
    clock: C,
    context: Mutex<ContextV7>,
}

impl<C: Clock> UuidOutboxIdGenerator<C> {
    /// The generator's clock.
    pub closed spec fn spec_clock(&self) -> C {
        self.clock
    }

    pub fn new(clock: C) -> (r: UuidOutboxIdGenerator<C>)
        ensures
            r.spec_clock() == clock,
    {
        UuidOutboxIdGenerator { clock, context: new_mutex(new_context_v7()) }
    }
}

impl<C: Clock> OutboxEventIdGenerator for UuidOutboxIdGenerator<C> {
    fn generate(&self) -> (r: Result<OutboxEventId, OutboxEventIdGenerationError>)
        ensures
            r matches Ok(id) ==> uuid_version(id@) == 7 && uuid_variant(id@) == 2,
            r matches Err(OutboxEventIdGenerationError::GenerationFailed(
                UuidError::TimestampOutOfRange(millis),
            )) ==> millis < 0 || millis > MAX_UUID_V7_MILLIS,
            exists|t: UtcDateTime|
                self.spec_clock().spec_reads(t) && #[trigger] v7_outcome_for(
                    t,
                    outbox_event_id_answer(r),
                ),
    {
        let uuid = time_ordered_uuid(&self.clock, &self.context);
        let r = match uuid {
            Ok(value) => Ok(OutboxEventId::from_u128(value)),
            Err(e) => Err(OutboxEventIdGenerationError::GenerationFailed(e)),
        };
        assert(outbox_event_id_answer(r) == uuid);
        r
    }
}

/// Makes [`UuidOutboxIdGenerator`]s that share one clock.
pub struct UuidOutboxEventIdGeneratorFactory<C: Clock + Clone> {
    clock: C,
}

impl<C: Clock + Clone> UuidOutboxEventIdGeneratorFactory<C> {
    /// The factory's clock.
    pub closed spec fn spec_clock(&self) -> C {
        self.clock
    }

    pub fn new(clock: C) -> (r: UuidOutboxEventIdGeneratorFactory<C>)
        ensures
            r.spec_clock() == clock,
    {
        UuidOutboxEventIdGeneratorFactory { clock }
    }
}

impl<C: Clock + Clone> OutboxEventIdGeneratorFactory for UuidOutboxEventIdGeneratorFactory<C> {
    type Generator = UuidOutboxIdGenerator<C>;

    /// A generator on a clone of the factory's clock, with a context of its own.
    fn create_outbox_event_id_generator(&self) -> (r: UuidOutboxIdGenerator<C>)
        ensures
            cloned::<C>(self.spec_clock(), r.spec_clock()),
    {
        UuidOutboxIdGenerator::new(self.clock.clone())
    }
}

} // verus!
