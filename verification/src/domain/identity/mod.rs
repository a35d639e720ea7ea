//! The identity context: users, invites, verification status.
//!
//! The critical invariant of an invite lives here: at most
//! [`MAX_ACTIVE_INVITES`] active invites, a cooldown between issuances, no limit
//! for an admin. The only way to issue an invite is the gated constructor
//! [`Invite::issue`].

pub mod invite;
pub mod specifications;
pub mod user;
pub mod value_objects;

pub use invite::{
    invite_cooldown, IdentityEvent, Invite, InviteAccepted, InviteError, InviteId, InviteIssued,
    InviteMarker, InviteStatus, IssuanceContext, MAX_ACTIVE_INVITES,
};
pub use specifications::{ActiveInvite, VerifiedUser};
pub use user::{User, UserId, UserMarker};
pub use value_objects::{
    Handle, HandleError, InviteCode, InviteCodeError, InviteQuota, UserRole, VerifiedStatus,
};
