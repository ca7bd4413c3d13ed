pub mod backoff;
pub mod email_service;
pub mod entity_tracker;
pub mod id_generator;
pub mod password_service;
pub mod uuid_v7;
