use vstd::prelude::*;

use crate::shared::domain_event::DomainEventView;
use crate::shared::outbox_event::entity::{OutboxEvent, OutboxEventStatus};

verus! {

/// An entity that records domain events and hands them out for the outbox.
pub trait EntityWithEvents {
    /// The domain events recorded and not yet handed out, oldest first.
    spec fn recorded_events(&self) -> Seq<DomainEventView>;

    /// Hands out the recorded events, oldest first, each as a new pending
    /// outbox event, leaving none recorded.
    fn pull_events(&mut self) -> (r: Vec<OutboxEvent>)
        ensures
            final(self).recorded_events() == Seq::<DomainEventView>::empty(),
            r.len() == old(self).recorded_events().len(),
            forall|i: int|
                #![trigger r@[i]]
                0 <= i < r.len() ==> r@[i]@.event == old(self).recorded_events()[i]
                    && r@[i]@.status == OutboxEventStatus::Pending,
    ;
}

} // verus!
