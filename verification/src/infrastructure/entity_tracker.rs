use vstd::prelude::*;

use crate::shared::outbox_event::{EntityWithEvents, OutboxEvent, OutboxEventStatus};

verus! {

/// Collects, over a unit of work, the outbox events that the entities it
/// touched recorded, so that they are stored with that work.
pub struct EntityTracker {
    events: Vec<OutboxEvent>,
}

impl View for EntityTracker {
    type V = Seq<OutboxEvent>;

    /// The events collected so far, in the order they came.
    closed spec fn view(&self) -> Seq<OutboxEvent> {
        self.events@
    }
}

impl EntityTracker {
    /// A tracker with no events.
    pub fn new() -> (r: EntityTracker)
        ensures
            r@ == Seq::<OutboxEvent>::empty(),
    {
        EntityTracker { events: Vec::new() }
    }

    /// Adds `new_events`, in their order, after the events collected so far.
    pub fn track_events(&mut self, new_events: Vec<OutboxEvent>)
        ensures
            final(self)@ == old(self)@ + new_events@,
    {
        if new_events.len() == 0 {
            proof {
                assert(self@ + new_events@ =~= self@);
            }
            return;
        }
        let mut new_events = new_events;
        self.events.append(&mut new_events);
    }

    /// Takes the events that `entity` recorded and adds them, in order, after
    /// the events collected so far, each as a new pending outbox event.
    pub fn track<E: EntityWithEvents>(&mut self, entity: E)
        ensures
            final(self)@.len() == old(self)@.len() + entity.recorded_events().len(),
            final(self)@.subrange(0, old(self)@.len() as int) == old(self)@,
            forall|i: int|
                #![trigger final(self)@[old(self)@.len() + i]]
                0 <= i < entity.recorded_events().len() ==> final(self)@[old(self)@.len()
                    + i]@.event == entity.recorded_events()[i] && final(self)@[old(self)@.len()
                    + i]@.status == OutboxEventStatus::Pending,
    {
        let mut entity = entity;
        let new_events = entity.pull_events();
        self.track_events(new_events);
    }

    /// Hands out every event collected, in order, leaving none.
    pub fn drain_all_events(&mut self) -> (r: Vec<OutboxEvent>)
        ensures
            r@ == old(self)@,
            final(self)@ == Seq::<OutboxEvent>::empty(),
    {
        let mut drained: Vec<OutboxEvent> = Vec::new();
        std::mem::swap(&mut drained, &mut self.events);
        drained
    }
}

} // verus!
