pub mod domain_event;
pub mod outbox_event;
pub mod random_id;
