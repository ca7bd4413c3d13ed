use vstd::prelude::*;

use crate::infrastructure::uuid_v7::UuidError;
use crate::shared::outbox_event::outbox_event_id::OutboxEventId;
use crate::time::UtcDateTime;

verus! {

/// What becomes of an event whose delivery failed: another attempt at a given
/// time, or none.
#[derive(Debug, Clone, Copy, PartialEq, Eq, Structural)]
pub enum NextAttemptStatus {
    RetryAt(UtcDateTime),
    PermanentlyFailed,
}

/// Decides when a failed delivery is tried again, from the number of attempts
/// that failed before and the time of the latest failure.
pub trait NextAttemptCalculator {
    /// Whether `answer` is an answer the calculator may give for an event that
    /// failed `retry_count` times before, the latest at `last_failed_at`. A
    /// calculator that says nothing of its answers may give any.
    open spec fn spec_allows(
        &self,
        retry_count: u32,
        last_failed_at: UtcDateTime,
        answer: NextAttemptStatus,
    ) -> bool {
        true
    }

    fn next_attempt_status(&self, retry_count: u32, last_failed_at: UtcDateTime) -> (r:
        NextAttemptStatus)
        ensures
            self.spec_allows(retry_count, last_failed_at, r),
    ;
}

/// The failure of an outbox event identifier generator.
#[derive(Debug, Clone, Copy, PartialEq, Eq, Structural)]
pub enum OutboxEventIdGenerationError {
    /// The clock gave a time that the identifier cannot hold.
    GenerationFailed(UuidError),
}

/// Issues identifiers for outbox events.
pub trait OutboxEventIdGenerator {
    fn generate(&self) -> Result<OutboxEventId, OutboxEventIdGenerationError>;
}

/// Makes outbox event identifier generators.
pub trait OutboxEventIdGeneratorFactory {
    type Generator: OutboxEventIdGenerator;

    fn create_outbox_event_id_generator(&self) -> Self::Generator;
}

} // verus!
