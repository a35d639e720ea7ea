//! The domain core: value objects, aggregates and their invariants. No I/O; ids
//! and moments come in from the boundary.

pub mod auth;
pub mod community;
pub mod content;
pub mod error;
pub mod identity;
pub mod marketplace;
pub mod messaging;
pub mod music;
pub mod openapi;
pub mod social;
pub mod specification;
pub mod verification;

pub use error::RepositoryError;
pub use specification::{And, Combine, Not, Or, Specification};
