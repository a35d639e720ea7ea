//! The adapters of the application's ports that compute: the system clock,
//! random codes and tokens, password and key hashing. Randomness and heavy
//! cryptography stand here, at the edge; the domain keeps only the results.

pub mod auth;
pub mod clock;
pub mod invite_code;
pub mod openapi;
pub mod records;

pub use auth::{Argon2PasswordHasher, RandomSessionTokenFactory};
pub use clock::SystemClock;
pub use invite_code::RandomInviteCodeFactory;
pub use openapi::{RandomApiKeyFactory, Sha256ApiKeyHasher};
