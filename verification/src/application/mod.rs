//! The application layer: use cases, commands and queries over the domain's
//! ports. It orchestrates; the rules stay in the domain.

pub mod command;
pub mod error;
pub mod ports;
pub mod query;

pub use error::ApplicationError;
pub use ports::{
    ApiKeyFactory, ApiKeyHasher, Clock, InviteCodeFactory, InviterIssuanceState, PasswordHasher,
    SessionTokenFactory,
};
