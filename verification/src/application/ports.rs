//! Ports for the operations that are not deterministic: the clock, random
//! codes and tokens, password hashing. They stay outside the domain so that
//! its rules stay pure; the implementations live in `infrastructure`.

use vstd::prelude::*;

use crate::domain::auth::{Password, PasswordHash, SessionToken};
use crate::domain::identity::{InviteCode, InviteQuota};
use crate::domain::openapi::{ApiKeyHash, ApiKeyToken};
use crate::shared::time::Timestamp;

verus! {

/// The source of the current moment.
pub trait Clock: Send + Sync {
    /// The current moment.
    fn now(&self) -> Timestamp;
}

/// Makes invite codes. The randomness lives here, at the edge; the domain
/// only validates a code.
pub trait InviteCodeFactory: Send + Sync {
    /// A new valid code.
    fn generate(&self) -> InviteCode;
}

/// Hashes and checks passwords. Slow and salted at random, so it stays at the
/// edge; the domain keeps only the resulting [`PasswordHash`].
pub trait PasswordHasher: Send + Sync {
    /// Hash a password with a fresh random salt.
    fn hash(&self, password: &Password) -> PasswordHash;

    /// Check a password against a hash.
    fn verify(&self, password: &Password, hash: &PasswordHash) -> bool;
}

/// Makes session tokens; the domain only validates them.
pub trait SessionTokenFactory: Send + Sync {
    /// A new high-entropy token.
    fn generate(&self) -> SessionToken;
}

/// Makes the secrets of API keys; the domain only validates their format.
pub trait ApiKeyFactory: Send + Sync {
    /// A new high-entropy key token (shown to its owner once).
    fn generate(&self) -> ApiKeyToken;
}

/// Hashes a key's secret for storage and for lookup on every request. A fast
/// hash is enough: the key has high entropy.
pub trait ApiKeyHasher: Send + Sync {
    /// Hash a token; one token always gives one hash.
    fn hash(&self, token: &ApiKeyToken) -> ApiKeyHash;
}

/// The inviter's state, read while the inviter's row is locked, for the
/// issuing invariant. The quota comes from the role.
#[derive(Debug, Clone, Copy)]
pub struct InviterIssuanceState {
    pub quota: InviteQuota,
    pub active_count: u32,
    pub last_issued_at: Option<Timestamp>,
}

} // verus!
