use vstd::prelude::*;

verus! {

/// Where the relay worker stands: waiting for the next tick of its interval, or
/// relaying batches of outbox events back to back while some remain.
#[derive(Debug, Clone, Copy, PartialEq, Eq, Structural)]
pub enum RelayState {
    Idle,
    Busy,
}

/// What the relay worker learns while it waits or works: the interval ticked,
/// a batch was relayed (with the number of events in it) or failed, or the
/// worker was told to stop.
#[derive(Debug, Clone, Copy, PartialEq, Eq, Structural)]
pub enum RelayEvent {
    Tick,
    BatchProcessed(usize),
    BatchFailed,
    Cancelled,
}

/// The worker's next state, and whether its interval starts over.
#[derive(Debug, Clone, Copy, PartialEq, Eq, Structural)]
pub struct RelayStep {
    pub state: RelayState,
    pub reset_interval: bool,
}

/// Whether the worker can hear `event` in `state`: a waiting worker hears only
/// ticks and the order to stop, a working worker never hears a tick.
pub open spec fn relay_event_expected(state: RelayState, event: RelayEvent) -> bool {
    match state {
        RelayState::Idle => event is Tick || event is Cancelled,
        RelayState::Busy => !(event is Tick),
    }
}

impl RelayState {
    /// The worker's next step after `event`, or none when it stops. A tick sets
    /// a waiting worker to work. A batch smaller than `batch_size` means that
    /// the outbox is drained: the worker waits again, with its interval started
    /// over; a full batch keeps it working. A failed batch sends it back to
    /// waiting, with its interval started over. The order to stop is obeyed in
    /// either state.
    pub fn next(self, event: RelayEvent, batch_size: u64) -> (r: Option<RelayStep>)
        requires
            relay_event_expected(self, event),
        ensures
            event is Cancelled ==> r is None,
            event is Tick ==> r == Some(RelayStep { state: RelayState::Busy, reset_interval: false }),
            event matches RelayEvent::BatchProcessed(count) ==> r == Some(
                if count < batch_size as usize {
                    RelayStep { state: RelayState::Idle, reset_interval: true }
                } else {
                    RelayStep { state: RelayState::Busy, reset_interval: false }
                },
            ),
            event is BatchFailed ==> r == Some(
                RelayStep { state: RelayState::Idle, reset_interval: true },
            ),
    {
        match event {
            RelayEvent::Cancelled => None,
            RelayEvent::Tick => Some(RelayStep { state: RelayState::Busy, reset_interval: false }),
            RelayEvent::BatchProcessed(count) => {
                if count < batch_size as usize {
                    Some(RelayStep { state: RelayState::Idle, reset_interval: true })
                } else {
                    Some(RelayStep { state: RelayState::Busy, reset_interval: false })
                }
            },
            RelayEvent::BatchFailed => Some(RelayStep { state: RelayState::Idle, reset_interval: true }),
        }
    }
}

} // verus!
