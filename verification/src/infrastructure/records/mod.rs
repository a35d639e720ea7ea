//! Rebuilding the domain's values from the rows of the store. The SQL stays at
//! the edge; what a row means, and when it is corrupt, is decided here,
//! through the domain's own constructors.

pub mod community;
pub mod identity;
pub mod auth;
pub mod content;
pub mod marketplace;
pub mod messaging;
pub mod music;
pub mod openapi;
pub mod verification;
