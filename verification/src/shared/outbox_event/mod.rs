pub mod entity;
pub mod entity_with_events;
pub mod error;
pub mod outbox_event_id;
pub mod service;
pub mod trace;

pub use entity::{
    OutboxEvent, OutboxEventStatus, OutboxEventStatusKind, OutboxEventStatusRaw, OutboxEventView,
};
pub use entity_with_events::EntityWithEvents;
pub use error::{OutboxEventDomainError, OutboxEventReconstructionError, OutboxStatusTransitionError};
pub use outbox_event_id::OutboxEventId;
pub use service::{
    NextAttemptCalculator, NextAttemptStatus, OutboxEventIdGenerationError, OutboxEventIdGenerator,
    OutboxEventIdGeneratorFactory,
};
pub use trace::TraceId;
