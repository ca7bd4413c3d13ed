use vstd::prelude::*;

use crate::shared::outbox_event::NextAttemptStatus;
use crate::time::UtcDateTime;

verus! {

/// The largest number of whole seconds that a time span can hold: a span holds at
/// most `i64::MAX` milliseconds.
pub const MAX_DELAY_SECONDS: i64 = 9_223_372_036_854_775;

/// Whether a failure at `last_failed_at` followed by a delay of `delay_seconds`
/// seconds and a jitter of `jitter_millis` milliseconds stays within the
/// representable time spans and instants, step by step.
pub open spec fn backoff_in_range(last_failed_at: UtcDateTime, delay_seconds: i64, jitter_millis: i64) -> bool {
    &&& -MAX_DELAY_SECONDS <= delay_seconds <= MAX_DELAY_SECONDS
    &&& jitter_millis > i64::MIN
    &&& UtcDateTime::representable_nanos(last_failed_at.epoch_nanos() + delay_seconds * 1_000_000_000)
    &&& UtcDateTime::representable_nanos(
        last_failed_at.epoch_nanos() + delay_seconds * 1_000_000_000 + jitter_millis * 1_000_000,
    )
}

/// What becomes of an event whose delivery failed for the `retry_count`-th time
/// at `last_failed_at`: after `max_retries` failures it is given up; before
/// that it is tried again `delay_seconds` seconds and `jitter_millis`
/// milliseconds later.
pub fn backoff_next_attempt_status(
    retry_count: u32,
    max_retries: u32,
    last_failed_at: UtcDateTime,
    delay_seconds: i64,
    jitter_millis: i64,
) -> (r: NextAttemptStatus)
    requires
        backoff_in_range(last_failed_at, delay_seconds, jitter_millis),
    ensures
        retry_count >= max_retries ==> r == NextAttemptStatus::PermanentlyFailed,
        retry_count < max_retries ==> (r matches NextAttemptStatus::RetryAt(t) && t.epoch_nanos()
            == last_failed_at.epoch_nanos() + delay_seconds * 1_000_000_000 + jitter_millis
            * 1_000_000),
{
    let delayed = last_failed_at.checked_add_millis(delay_seconds * 1000).unwrap();
    let next_attempt_at = delayed.checked_add_millis(jitter_millis).unwrap();
    if retry_count >= max_retries {
        NextAttemptStatus::PermanentlyFailed
    } else {
        NextAttemptStatus::RetryAt(next_attempt_at)
    }
}

} // verus!
