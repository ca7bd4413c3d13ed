//! Domain model of a user-account and authorization service: users and
//! their lifecycle, authorization policies, and the transactional outbox
//! that carries domain events to the relay worker.

pub mod auth;
pub mod entity;
pub mod infrastructure;
pub mod relay;
pub mod shared;
pub mod text;
pub mod time;
pub mod user;
