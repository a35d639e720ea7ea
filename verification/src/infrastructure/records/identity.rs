//! The rows of users and invites.

use vstd::prelude::*;

use crate::application::ports::InviterIssuanceState;
use crate::domain::identity::invite::InviteView;
use crate::domain::identity::user::UserView;
use crate::domain::identity::{
    Handle, HandleError, Invite, InviteCode, InviteQuota, InviteStatus, IssuanceContext, User, UserId, UserRole,
    VerifiedStatus,
};
use crate::domain::RepositoryError;
use crate::shared::id::{lemma_id_view_injective, lemma_spec_from_uuid, Id};
use crate::shared::time::Timestamp;
use crate::text::str_eq;

verus! {

broadcast use {lemma_id_view_injective, lemma_spec_from_uuid};

/// A failure of the store with a fixed text.
pub fn unavailable(text: &str) -> (r: RepositoryError)
    ensures
        r matches RepositoryError::Unavailable(m) && m@ == text@,
{
    RepositoryError::Unavailable(text.to_owned())
}

/// The text of a failure: `prefix` and then `what`.
pub fn unavailable_with(prefix: &str, what: &str) -> (r: RepositoryError)
    ensures
        r matches RepositoryError::Unavailable(m) && m@ == prefix@ + what@,
{
    let mut m = String::new();
    m.push_str(prefix);
    m.push_str(what);
    RepositoryError::Unavailable(m)
}

/// The stored text of a role.
pub open spec fn spec_role_str(role: UserRole) -> Seq<char> {
    match role {
        UserRole::Member => "member"@,
        UserRole::Admin => "admin"@,
    }
}

/// How a role is stored.
pub fn role_str(role: UserRole) -> (r: &'static str)
    ensures
        r@ == spec_role_str(role),
{
    match role {
        UserRole::Member => "member",
        UserRole::Admin => "admin",
    }
}

/// A stored role, or a failure that names the unknown text.
pub fn parse_role(raw: &str) -> (r: Result<UserRole, RepositoryError>)
    ensures
        raw@ == "member"@ ==> r == Ok::<UserRole, RepositoryError>(UserRole::Member),
        raw@ == "admin"@ ==> r == Ok::<UserRole, RepositoryError>(UserRole::Admin),
        raw@ != "member"@ && raw@ != "admin"@ ==> (r matches Err(RepositoryError::Unavailable(m)) && m@
            == "неизвестная роль в БД: "@ + raw@),
        r matches Ok(role) ==> spec_role_str(role) == raw@,
{
    proof {
        reveal_strlit("member");
        reveal_strlit("admin");
        assert("member"@[0] != "admin"@[0]);
    }
    if str_eq(raw, "member") {
        Ok(UserRole::Member)
    } else if str_eq(raw, "admin") {
        Ok(UserRole::Admin)
    } else {
        Err(unavailable_with("неизвестная роль в БД: ", raw))
    }
}

/// How a store failure is classified: a missing row is `NotFound`, a broken
/// uniqueness rule is `Conflict`, anything else is `Unavailable` with the
/// store's own text.
pub fn store_failure(row_not_found: bool, unique_violation: bool, detail: String) -> (r: RepositoryError)
    ensures
        r == (if row_not_found {
            RepositoryError::NotFound
        } else if unique_violation {
            RepositoryError::Conflict
        } else {
            RepositoryError::Unavailable(detail)
        }),
{
    if row_not_found {
        RepositoryError::NotFound
    } else if unique_violation {
        RepositoryError::Conflict
    } else {
        RepositoryError::Unavailable(detail)
    }
}

/// The stored text of a verification status.
pub open spec fn spec_verified_str(v: VerifiedStatus) -> Seq<char> {
    match v {
        VerifiedStatus::Verified => "verified"@,
        VerifiedStatus::Casual => "casual"@,
    }
}

/// A stored verification status: the text `verified` is a verified user, any
/// other text a casual one.
pub fn parse_verified(raw: &str) -> (r: VerifiedStatus)
    ensures
        r == (if raw@ == "verified"@ {
            VerifiedStatus::Verified
        } else {
            VerifiedStatus::Casual
        }),
{
    if str_eq(raw, "verified") {
        VerifiedStatus::Verified
    } else {
        VerifiedStatus::Casual
    }
}

/// How a verification status is stored.
pub fn verified_str(v: VerifiedStatus) -> (r: &'static str)
    ensures
        r@ == spec_verified_str(v),
{
    match v {
        VerifiedStatus::Verified => "verified",
        VerifiedStatus::Casual => "casual",
    }
}

/// The user that a row reads as, where it reads as one: the handle must
/// parse and the role must be known; the text `verified` marks a verified
/// user, any other text a casual one.
pub open spec fn user_row_view(
    id: u128,
    handle: Seq<char>,
    role: Seq<char>,
    verified: Seq<char>,
    created_at: Timestamp,
) -> Option<UserView> {
    match Handle::spec_parse(handle) {
        Err(_) => None,
        Ok(h) => if role == "member"@ || role == "admin"@ {
            Some(UserView {
                id: Id::spec_from_uuid(id),
                handle: h,
                role: if role == "admin"@ {
                    UserRole::Admin
                } else {
                    UserRole::Member
                },
                verified: if verified == "verified"@ {
                    VerifiedStatus::Verified
                } else {
                    VerifiedStatus::Casual
                },
                created_at,
            })
        } else {
            None
        },
    }
}

/// A user row: the handle must parse and the role must be known; the text
/// `verified` marks a verified user, any other text a casual one.
pub fn row_to_user(id: u128, handle: String, role: String, verified: String, created_at: Timestamp) -> (r: Result<User, RepositoryError>)
    ensures
        match user_row_view(id, handle@, role@, verified@, created_at) {
            Some(v) => r matches Ok(u) && u@ == v,
            None => r is Err,
        },
        match Handle::spec_parse(handle@) {
            Err(_) => r matches Err(RepositoryError::Unavailable(m)) && m@ == "повреждённый handle в БД"@,
            Ok(h) => {
                if role@ == "member"@ || role@ == "admin"@ {
                    r matches Ok(u) && u@ == (UserView {
                        id: Id::spec_from_uuid(id),
                        handle: h,
                        role: if role@ == "admin"@ {
                            UserRole::Admin
                        } else {
                            UserRole::Member
                        },
                        verified: if verified@ == "verified"@ {
                            VerifiedStatus::Verified
                        } else {
                            VerifiedStatus::Casual
                        },
                        created_at,
                    })
                } else {
                    r matches Err(RepositoryError::Unavailable(m)) && m@ == "неизвестная роль в БД: "@ + role@
                }
            },
        },
{
    proof {
        reveal_strlit("member");
        reveal_strlit("admin");
    }
    let handle = match Handle::parse(handle.as_str()) {
        Ok(h) => h,
        Err(_) => return Err(unavailable("повреждённый handle в БД")),
    };
    let role = parse_role(role.as_str())?;
    let mut user = User::register(Id::from_uuid(id), handle, role, created_at);
    if parse_verified(verified.as_str()).is_verified() {
        user.verify();
    }
    Ok(user)
}

/// How many active invites the store counted, as the issuing rule reads it: a
/// count that does not fit a `u32` reads as `u32::MAX`.
pub open spec fn counted_active(active: i64) -> u32 {
    if 0 <= active <= u32::MAX {
        active as u32
    } else {
        u32::MAX
    }
}

/// The inviter's state read under the lock: the quota of the stored role, the
/// count of active invites, the moment of the last issuance.
pub fn inviter_issuance_state(role: &str, active: i64, last_issued_at: Option<Timestamp>) -> (r: Result<
    InviterIssuanceState,
    RepositoryError,
>)
    ensures
        match r {
            Ok(state) => {
                &&& (role@ == "member"@ || role@ == "admin"@)
                &&& state.quota == (if role@ == "admin"@ {
                    InviteQuota::Unlimited
                } else {
                    UserRole::Member.spec_invite_quota()
                })
                &&& state.active_count == counted_active(active)
                &&& state.last_issued_at == last_issued_at
            },
            Err(e) => {
                &&& role@ != "member"@
                &&& role@ != "admin"@
                &&& e matches RepositoryError::Unavailable(m) && m@ == "неизвестная роль в БД: "@ + role@
            },
        },
{
    proof {
        reveal_strlit("member");
        reveal_strlit("admin");
    }
    let role = parse_role(role)?;
    let active_count: u32 = if 0 <= active && active <= 0xFFFF_FFFF {
        active as u32
    } else {
        0xFFFF_FFFF
    };
    Ok(InviterIssuanceState { quota: role.invite_quota(), active_count, last_issued_at })
}

/// An active invite row, rebuilt through the issuing rule with an unlimited
/// quota (the rule was passed when it was issued).
pub fn active_invite_from_row(id: u128, code: String, inviter: u128, created_at: Timestamp) -> (r: Result<Invite, RepositoryError>)
    ensures
        match InviteCode::spec_parse(code@) {
            Err(_) => r matches Err(RepositoryError::Unavailable(m)) && m@ == "повреждённый код инвайта в БД"@,
            Ok(c) => r matches Ok(invite) && invite@ == (InviteView {
                id: Id::spec_from_uuid(id),
                code: c,
                inviter: Id::spec_from_uuid(inviter),
                status: InviteStatus::Active,
                created_at,
            }),
        },
{
    let code = match InviteCode::parse(code.as_str()) {
        Ok(c) => c,
        Err(_) => return Err(unavailable("повреждённый код инвайта в БД")),
    };
    let ctx = IssuanceContext {
        quota: InviteQuota::Unlimited,
        active_count: 0,
        last_issued_at: None,
        now: created_at,
    };
    match Invite::issue(Id::from_uuid(id), code, Id::from_uuid(inviter), ctx) {
        Ok((invite, _issued)) => Ok(invite),
        Err(_) => Err(unavailable("реконституция инвайта")),
    }
}

/// Who accepted an invite and when, for storing the acceptance; an invite
/// that is still active cannot be stored as accepted.
pub fn invite_acceptance(invite: &Invite) -> (r: Result<(UserId, Timestamp), RepositoryError>)
    ensures
        match invite@.status {
            InviteStatus::Accepted { by, at } => r == Ok::<(UserId, Timestamp), RepositoryError>((by, at)),
            InviteStatus::Active => r matches Err(RepositoryError::Unavailable(m)) && m@ == "инвайт не принят"@,
        },
{
    match invite.status() {
        InviteStatus::Accepted { by, at } => Ok((*by, *at)),
        InviteStatus::Active => Err(unavailable("инвайт не принят")),
    }
}

/// A conditional update that changed no row lost a race: `Conflict`.
pub fn require_updated(rows_affected: u64) -> (r: Result<(), RepositoryError>)
    ensures
        rows_affected == 0 <==> r == Err::<(), RepositoryError>(RepositoryError::Conflict),
        rows_affected != 0 <==> r is Ok,
{
    if rows_affected == 0 {
        Err(RepositoryError::Conflict)
    } else {
        Ok(())
    }
}

/// Law: a role is read back from the text it is stored as: the stored text is
/// one of the two known, and each names its own role.
pub proof fn law_role_store_roundtrip(role: UserRole)
    ensures
        spec_role_str(role) == "member"@ <==> role == UserRole::Member,
        spec_role_str(role) == "admin"@ <==> role == UserRole::Admin,
{
    reveal_strlit("member");
    reveal_strlit("admin");
    assert("member"@[0] != "admin"@[0]);
}

/// Law: a verification status is read back from the text it is stored as: a
/// user row reads the text `verified` as verified and any other as casual.
pub proof fn law_verified_store_roundtrip(v: VerifiedStatus)
    ensures
        spec_verified_str(v) == "verified"@ <==> v == VerifiedStatus::Verified,
{
    reveal_strlit("verified");
    reveal_strlit("casual");
    assert("verified"@[0] != "casual"@[0]);
}

/// Law: a user is read back from the row it is stored as. The row holds the
/// identifier, the handle (a parsed handle is stored as it is), the stored
/// texts of the role and of the verification status, and the moment of
/// registration; reading that row gives the same user.
pub proof fn law_user_store_roundtrip(u: UserView)
    requires
        Handle::spec_parse(u.handle) == Ok::<Seq<char>, HandleError>(u.handle),
    ensures
        user_row_view(u.id@, u.handle, spec_role_str(u.role), spec_verified_str(u.verified), u.created_at)
            == Some(u),
{
    reveal_strlit("member");
    reveal_strlit("admin");
    reveal_strlit("verified");
    reveal_strlit("casual");
    assert("member"@[0] != "admin"@[0]);
    assert("verified"@[0] != "casual"@[0]);
}

} // verus!
