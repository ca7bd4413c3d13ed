pub mod email;
pub mod entity;
pub mod error;
pub mod events;
pub mod factory;
pub mod password;
pub mod role;
pub mod service;
pub mod state;
pub mod user_id;

pub use email::{
    check_email_format, is_valid_email, Email, EmailFormatError, EmailTrait, EmailView,
    UnverifiedEmail, VerifiedEmail,
};
pub use error::{
    EmailVerificationError, ModificationWithInvalidStateError, UserDomainError,
    UserReconstructionError, UserStateTransitionError, UserUniqueConstraintViolation,
};
pub use password::{HashedPassword, PasswordPolicyViolation, RawPassword};
pub use role::UserRole;
pub use user_id::UserId;
pub use state::{UserState, UserStateKind, UserStateRaw, UserStateView};
pub use events::{
    UserCreatedEvent, UserDeactivatedEvent, UserEmailChangedEvent, UserEmailVerifiedEvent, UserEvent,
    UserEventView, UserPromotedToAdminEvent, UserReactivatedEvent, UserSuspendedEvent,
    UserUnlockedEvent, UsernameChangedEvent,
};
pub use entity::{User, UserView};
pub use factory::{UserCreationError, UserFactory};
pub use service::{
    EmailVerifier, IdGenerator, IdGeneratorFactory, PasswordHasher, PasswordHashingError,
    UniqueEmail, UniqueUserInfo, UniqueUsername, UserIdGenerationError, UserIdGenerator,
    UserIdGeneratorFactory, UserUniquenessService,
};
