//! The rows of credentials and sessions.

use vstd::prelude::*;

use crate::domain::auth::{Credential, CredentialView, PasswordHash, Session, SessionToken, SessionView};
use crate::domain::identity::UserId;
use crate::shared::id::{lemma_id_view_injective, lemma_spec_from_uuid, Id};
use crate::shared::time::{lemma_timestamp_view_injective, Timestamp};

verus! {

broadcast use {lemma_id_view_injective, lemma_spec_from_uuid, lemma_timestamp_view_injective};

/// A credential row of `user`.
pub fn credential_from_row(user: UserId, hash: String, established_at: Timestamp) -> (r: Credential)
    ensures
        r@ == (CredentialView { user, hash: hash@, established_at }),
{
    Credential::establish(user, PasswordHash::from_storage(hash), established_at)
}

/// A session row, rebuilt through the domain: the lifetime is what lies
/// between issue and expiry, so the session expires when stored.
pub fn session_from_row(id: u128, token: &SessionToken, user: u128, issued_at: Timestamp, expires_at: Timestamp) -> (r: Session)
    ensures
        r@ == (SessionView {
            id: Id::spec_from_uuid(id),
            token: token@,
            user: Id::spec_from_uuid(user),
            issued_at,
            expires_at,
        }),
{
    let ttl = expires_at.duration_since(issued_at);
    let (session, _issued) = Session::issue(Id::from_uuid(id), token.clone(), Id::from_uuid(user), issued_at, ttl);
    proof {
        assert(session@.expires_at@ == expires_at@);
    }
    session
}

} // verus!
