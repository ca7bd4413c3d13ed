pub mod policies;
pub mod policy;

pub use policy::{
    authorization_decision, Actor, AuthorizationContext, AuthorizationError, AuthorizationService,
    Policy, UserAction,
};
