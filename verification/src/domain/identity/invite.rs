//! The [`Invite`] aggregate and the invariant of its issuance: at most
//! [`MAX_ACTIVE_INVITES`] active invites, a cooldown of [`invite_cooldown`]
//! between issuances, and an admin (quota `Unlimited`) bypasses both.

use vstd::prelude::*;

use vstd::std_specs::convert::FromSpecImpl;

use crate::shared::id::{lemma_id_view_injective, Id};
use crate::shared::time::{
    duration_in_range, nanos_per_second, timestamp_in_range, Duration,
    Timestamp,
};
use crate::text::{decimal, decimal_seq, seconds_text, signed_decimal_seq, whole_seconds};

use super::user::UserId;
use super::value_objects::{InviteCode, InviteQuota};

verus! {

broadcast use lemma_id_view_injective;

/// Maximum of invites active at once for an ordinary user.
pub const MAX_ACTIVE_INVITES: u32 = 2;

/// The cooldown between issuances, in nanoseconds: twelve hours.
pub open spec fn cooldown_nanos() -> int {
    12 * 3600 * nanos_per_second()
}

/// The cooldown between issuances of an ordinary user: twelve hours.
pub fn invite_cooldown() -> (r: Duration)
    ensures
        r@ == cooldown_nanos(),
{
    Duration::hours(12)
}

/// Marker of the typed [`InviteId`].
#[derive(Debug, Clone, Copy, PartialEq, Eq, Hash)]
pub struct InviteMarker;

/// Identifier of an invite.
pub type InviteId = Id<InviteMarker>;

/// State of an invite. An invite not yet accepted is active; it counts against
/// the quota.
#[derive(Debug, Clone, Copy, PartialEq, Eq)]
pub enum InviteStatus {
    /// Issued, not yet accepted.
    Active,
    /// Accepted by `by` at `at`.
    Accepted { by: UserId, at: Timestamp },
}

/// What an invite is, in mathematical terms.
pub struct InviteView {
    pub id: InviteId,
    pub code: Seq<char>,
    pub inviter: UserId,
    pub status: InviteStatus,
    pub created_at: Timestamp,
}

/// An invite: the root of its aggregate. Built only by [`Invite::issue`].
#[derive(Debug, Clone, PartialEq, Eq)]
pub struct Invite {
    id: InviteId,
    code: InviteCode,
    inviter: UserId,
    status: InviteStatus,
    created_at: Timestamp,
}

impl View for Invite {
    type V = InviteView;

    closed spec fn view(&self) -> InviteView {
        InviteView {
            id: self.id,
            code: self.code@,
            inviter: self.inviter,
            status: self.status,
            created_at: self.created_at,
        }
    }
}

/// What the issuance invariant is checked against. The application gathers it
/// from the repository (active count, last issuance) before [`Invite::issue`].
#[derive(Debug, Clone, Copy)]
pub struct IssuanceContext {
    /// The inviter's quota (from the role).
    pub quota: InviteQuota,
    /// How many invites of the inviter are active now.
    pub active_count: u32,
    /// When the inviter last issued an invite (for the cooldown).
    pub last_issued_at: Option<Timestamp>,
    /// The current moment.
    pub now: Timestamp,
}

/// The quota refuses one more invite.
pub open spec fn quota_blocks(ctx: IssuanceContext) -> bool {
    !ctx.quota.spec_allows(ctx.active_count)
}

/// The cooldown of a limited quota has not run out since the last issuance.
pub open spec fn cooldown_blocks(ctx: IssuanceContext) -> bool {
    &&& ctx.quota is Limited
    &&& ctx.last_issued_at matches Some(last)
    &&& ctx.now@ - last@ < cooldown_nanos()
}

/// How long until the cooldown runs out.
pub open spec fn retry_after_nanos(ctx: IssuanceContext) -> int {
    cooldown_nanos() - (ctx.now@ - ctx.last_issued_at->0@)
}

/// The limit reported when the quota refuses: the quota's limit, or the active
/// count where the quota has none.
pub open spec fn reported_limit(ctx: IssuanceContext) -> u32 {
    match ctx.quota {
        InviteQuota::Limited(max) => max,
        InviteQuota::Unlimited => ctx.active_count,
    }
}

/// A breach of the rules of issuing or accepting an invite.
#[derive(Debug, Clone, PartialEq, Eq, Structural)]
pub enum InviteError {
    QuotaExceeded { active: u32, limit: u32 },
    CooldownActive { retry_after: Duration },
    NotActive,
    SelfAccept,
}

/// An invite was issued.
#[derive(Debug, Clone, PartialEq, Eq)]
pub struct InviteIssued {
    pub invite_id: InviteId,
    pub inviter: UserId,
    pub code: InviteCode,
    pub issued_at: Timestamp,
}

/// An invite was accepted.
#[derive(Debug, Clone, PartialEq, Eq)]
pub struct InviteAccepted {
    pub invite_id: InviteId,
    pub code: InviteCode,
    pub inviter: UserId,
    pub accepted_by: UserId,
    pub accepted_at: Timestamp,
}

/// A domain event of the identity context.
#[derive(Debug, Clone, PartialEq, Eq)]
pub enum IdentityEvent {
    InviteIssued(InviteIssued),
    InviteAccepted(InviteAccepted),
}

impl Invite {
    /// The one way to issue an invite, and the one place of the issuance rule:
    /// no more than the quota of active invites, the cooldown between
    /// issuances, and an admin (quota `Unlimited`) bypasses limit and cooldown.
    pub fn issue(id: InviteId, code: InviteCode, inviter: UserId, ctx: IssuanceContext) -> (r:
        Result<(Self, InviteIssued), InviteError>)
        ensures
            match r {
                Ok((invite, event)) => {
                    &&& !quota_blocks(ctx)
                    &&& !cooldown_blocks(ctx)
                    &&& invite@ == (InviteView {
                        id,
                        code: code@,
                        inviter,
                        status: InviteStatus::Active,
                        created_at: ctx.now,
                    })
                    &&& event.invite_id == id
                    &&& event.inviter == inviter
                    &&& event.code@ == code@
                    &&& event.issued_at == ctx.now
                },
                Err(InviteError::QuotaExceeded { active, limit }) => {
                    &&& quota_blocks(ctx)
                    &&& active == ctx.active_count
                    &&& limit == reported_limit(ctx)
                },
                Err(InviteError::CooldownActive { retry_after }) => {
                    &&& !quota_blocks(ctx)
                    &&& cooldown_blocks(ctx)
                    &&& retry_after@ == retry_after_nanos(ctx)
                },
                Err(_) => false,
            },
    {
        if !ctx.quota.allows(ctx.active_count) {
            let limit = match ctx.quota.limit() {
                Some(max) => max,
                None => ctx.active_count,
            };
            return Err(InviteError::QuotaExceeded { active: ctx.active_count, limit });
        }
        if ctx.quota.enforces_cooldown() {
            if let Some(last) = ctx.last_issued_at {
                let elapsed = ctx.now.duration_since(last);
                let cooldown = invite_cooldown();
                if elapsed.is_shorter_than(cooldown) {
                    assert(duration_in_range(cooldown@ - elapsed@));
                    return Err(InviteError::CooldownActive { retry_after: cooldown.minus(elapsed) });
                }
            }
        }
        let invite = Invite {
            id,
            code: code.clone(),
            inviter,
            status: InviteStatus::Active,
            created_at: ctx.now,
        };
        let event = InviteIssued { invite_id: id, inviter, code, issued_at: ctx.now };
        Ok((invite, event))
    }

    /// Accept an active invite. An invite that is not active, or one's own,
    /// cannot be accepted.
    pub fn accept(&mut self, by: UserId, now: Timestamp) -> (r: Result<InviteAccepted, InviteError>)
        ensures
            match r {
                Ok(event) => {
                    &&& old(self)@.status is Active
                    &&& by != old(self)@.inviter
                    &&& final(self)@ == (InviteView {
                        status: InviteStatus::Accepted { by, at: now },
                        ..old(self)@
                    })
                    &&& event.invite_id == old(self)@.id
                    &&& event.code@ == old(self)@.code
                    &&& event.inviter == old(self)@.inviter
                    &&& event.accepted_by == by
                    &&& event.accepted_at == now
                },
                Err(e) => {
                    &&& final(self)@ == old(self)@
                    &&& e == (if !(old(self)@.status is Active) {
                        InviteError::NotActive
                    } else {
                        InviteError::SelfAccept
                    })
                    &&& (old(self)@.status is Active ==> by == old(self)@.inviter)
                },
            },
    {
        if !self.is_active() {
            return Err(InviteError::NotActive);
        }
        if by == self.inviter {
            return Err(InviteError::SelfAccept);
        }
        self.status = InviteStatus::Accepted { by, at: now };
        Ok(InviteAccepted {
            invite_id: self.id,
            code: self.code.clone(),
            inviter: self.inviter,
            accepted_by: by,
            accepted_at: now,
        })
    }

    /// Whether the invite is active (counts against the quota).
    pub fn is_active(&self) -> (r: bool)
        ensures
            r == (self@.status is Active),
    {
        match self.status {
            InviteStatus::Active => true,
            InviteStatus::Accepted { .. } => false,
        }
    }

    pub fn id(&self) -> (r: InviteId)
        ensures
            r == self@.id,
    {
        self.id
    }

    pub fn code(&self) -> (r: &InviteCode)
        ensures
            r@ == self@.code,
    {
        &self.code
    }

    pub fn inviter(&self) -> (r: UserId)
        ensures
            r == self@.inviter,
    {
        self.inviter
    }

    pub fn status(&self) -> (r: &InviteStatus)
        ensures
            *r == self@.status,
    {
        &self.status
    }

    pub fn created_at(&self) -> (r: Timestamp)
        ensures
            r == self@.created_at,
    {
        self.created_at
    }
}

impl From<InviteIssued> for IdentityEvent {
    fn from(event: InviteIssued) -> (r: Self) {
        IdentityEvent::InviteIssued(event)
    }
}

impl FromSpecImpl<InviteIssued> for IdentityEvent {
    open spec fn obeys_from_spec() -> bool {
        true
    }

    open spec fn from_spec(event: InviteIssued) -> Self {
        IdentityEvent::InviteIssued(event)
    }
}

impl From<InviteAccepted> for IdentityEvent {
    fn from(event: InviteAccepted) -> (r: Self) {
        IdentityEvent::InviteAccepted(event)
    }
}

impl FromSpecImpl<InviteAccepted> for IdentityEvent {
    open spec fn obeys_from_spec() -> bool {
        true
    }

    open spec fn from_spec(event: InviteAccepted) -> Self {
        IdentityEvent::InviteAccepted(event)
    }
}

/// Law: an ordinary user never holds more active invites than the quota. An
/// issue that the quota lets through leaves the count of active invites,
/// the new one included, within the limit.
pub proof fn law_issue_keeps_quota(ctx: IssuanceContext)
    requires
        !quota_blocks(ctx),
        ctx.quota is Limited,
    ensures
        ctx.active_count + 1 <= ctx.quota->Limited_0,
{
}

/// Law: an admin (an unlimited quota) is held back by neither the quota nor
/// the cooldown.
pub proof fn law_admin_unbounded(ctx: IssuanceContext)
    requires
        ctx.quota == InviteQuota::Unlimited,
    ensures
        !quota_blocks(ctx),
        !cooldown_blocks(ctx),
{
}

/// Law: the cooldown ends exactly twelve hours after the last issuance; from
/// that moment on an issue is no longer held back by it.
pub proof fn law_cooldown_ends_at_twelve_hours(ctx: IssuanceContext)
    requires
        ctx.last_issued_at is Some,
        ctx.now@ - ctx.last_issued_at->0@ >= cooldown_nanos(),
    ensures
        !cooldown_blocks(ctx),
{
}

/// Law: an accepted invite is no longer active, so that a second acceptance,
/// by anyone, is refused as `NotActive`.
pub proof fn law_acceptance_is_final(v: InviteView, by: UserId, at: Timestamp)
    ensures
        !((InviteView { status: InviteStatus::Accepted { by, at }, ..v }).status is Active),
{
}

impl InviteError {
    /// The text of the error, as a reader sees it.
    pub open spec fn spec_message(self) -> Seq<char> {
        match self {
            InviteError::QuotaExceeded { active, limit } => "исчерпана квота активных инвайтов: "@
                + decimal_seq(active as nat)
                + "/"@
                + decimal_seq(limit as nat),
            InviteError::CooldownActive { retry_after } => "кулдаун выдачи: ещё "@
                + signed_decimal_seq(whole_seconds(retry_after@))
                + " c"@,
            InviteError::NotActive => "инвайт не активен"@,
            InviteError::SelfAccept => "нельзя принять собственный инвайт"@,
        }
    }

    /// The text of the error, as a reader sees it.
    pub fn message(&self) -> (r: String)
        ensures
            r@ == self.spec_message(),
    {
        match self {
            InviteError::QuotaExceeded { active, limit } => {
                let mut s = "исчерпана квота активных инвайтов: ".to_owned();
                s.push_str(decimal(*active as u128).as_str());
                s.push_str("/");
                s.push_str(decimal(*limit as u128).as_str());
                s
            },
            InviteError::CooldownActive { retry_after } => {
                let mut s = "кулдаун выдачи: ещё ".to_owned();
                s.push_str(seconds_text(retry_after.whole_nanoseconds()).as_str());
                s.push_str(" c");
                s
            },
            InviteError::NotActive => "инвайт не активен".to_owned(),
            InviteError::SelfAccept => "нельзя принять собственный инвайт".to_owned(),
        }
    }
}

} // verus!
