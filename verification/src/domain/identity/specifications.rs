//! Concrete specifications of the identity context.

use vstd::prelude::*;

use crate::domain::specification::Specification;

use super::invite::Invite;
use super::user::User;
use super::value_objects::VerifiedStatus;

verus! {

/// The invite is active (counts against the quota).
pub struct ActiveInvite;

impl Specification<Invite> for ActiveInvite {
    open spec fn satisfied_by(&self, invite: &Invite) -> bool {
        invite@.status is Active
    }

    fn is_satisfied_by(&self, invite: &Invite) -> (r: bool) {
        invite.is_active()
    }
}

/// The user is verified: the key to the privileged areas.
pub struct VerifiedUser;

impl Specification<User> for VerifiedUser {
    open spec fn satisfied_by(&self, user: &User) -> bool {
        user@.verified == VerifiedStatus::Verified
    }

    fn is_satisfied_by(&self, user: &User) -> (r: bool) {
        user.verified().is_verified()
    }
}

} // verus!
