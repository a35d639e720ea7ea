//! The [`User`] aggregate.

use vstd::prelude::*;

use crate::shared::id::Id;
use crate::shared::time::Timestamp;

use super::value_objects::{Handle, InviteQuota, UserRole, VerifiedStatus};

verus! {

/// Marker of the typed [`UserId`].
#[derive(Debug, Clone, Copy, PartialEq, Eq, Hash)]
pub struct UserMarker;

/// Identifier of a user.
pub type UserId = Id<UserMarker>;

/// What a user is, in mathematical terms.
pub struct UserView {
    pub id: UserId,
    pub handle: Seq<char>,
    pub role: UserRole,
    pub verified: VerifiedStatus,
    pub created_at: Timestamp,
}

/// A user: the root of the identity aggregate, identified by [`UserId`].
#[derive(Debug, Clone, PartialEq, Eq)]
pub struct User {
    id: UserId,
    handle: Handle,
    role: UserRole,
    verified: VerifiedStatus,
    created_at: Timestamp,
}

impl View for User {
    type V = UserView;

    closed spec fn view(&self) -> UserView {
        UserView {
            id: self.id,
            handle: self.handle@,
            role: self.role,
            verified: self.verified,
            created_at: self.created_at,
        }
    }
}

impl User {
    /// Register a new user, `Casual` at first. The id and the moment come from
    /// the boundary.
    pub fn register(id: UserId, handle: Handle, role: UserRole, now: Timestamp) -> (r: Self)
        ensures
            r@ == (UserView {
                id,
                handle: handle@,
                role,
                verified: VerifiedStatus::Casual,
                created_at: now,
            }),
    {
        User { id, handle, role, verified: VerifiedStatus::Casual, created_at: now }
    }

    /// Mark the user verified.
    pub fn verify(&mut self)
        ensures
            final(self)@ == (UserView { verified: VerifiedStatus::Verified, ..old(self)@ }),
    {
        self.verified = VerifiedStatus::Verified;
    }

    /// The user's invite quota (from the role).
    pub fn invite_quota(&self) -> (r: InviteQuota)
        ensures
            r == self@.role.spec_invite_quota(),
    {
        self.role.invite_quota()
    }

    pub fn id(&self) -> (r: UserId)
        ensures
            r == self@.id,
    {
        self.id
    }

    pub fn handle(&self) -> (r: &Handle)
        ensures
            r@ == self@.handle,
    {
        &self.handle
    }

    pub fn role(&self) -> (r: UserRole)
        ensures
            r == self@.role,
    {
        self.role
    }

    pub fn verified(&self) -> (r: VerifiedStatus)
        ensures
            r == self@.verified,
    {
        self.verified
    }

    pub fn created_at(&self) -> (r: Timestamp)
        ensures
            r == self@.created_at,
    {
        self.created_at
    }
}

} // verus!
