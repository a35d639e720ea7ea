//! The rows of API keys.

use vstd::prelude::*;

use crate::domain::openapi::{
    ApiKey, ApiKeyHash, ApiKeyLabel, ApiKeyLabelError, ApiKeyStatus, ApiKeyView,
};
use crate::domain::RepositoryError;
use crate::infrastructure::records::identity::unavailable_with;
use crate::shared::id::{lemma_id_view_injective, lemma_spec_from_uuid, Id};
use crate::shared::time::Timestamp;
use crate::text::str_eq;

verus! {

broadcast use {lemma_id_view_injective, lemma_spec_from_uuid};

/// The message of a corrupt key row.
pub open spec fn corrupt_key_text(what: Seq<char>) -> Seq<char> {
    "повреждённый API-ключ в БД: "@ + what
}

/// A key row is corrupt: `what` says which part.
pub fn corrupt(what: &str) -> (r: RepositoryError)
    ensures
        r matches RepositoryError::Unavailable(m) && m@ == corrupt_key_text(what@),
{
    unavailable_with("повреждённый API-ключ в БД: ", what)
}

/// A stored status, if it is known.
pub open spec fn spec_key_status(raw: Seq<char>) -> Option<ApiKeyStatus> {
    if raw == "active"@ {
        Some(ApiKeyStatus::Active)
    } else if raw == "revoked"@ {
        Some(ApiKeyStatus::Revoked)
    } else {
        None
    }
}

/// A stored status, or a failure that names the unknown text.
pub fn parse_status(raw: &str) -> (r: Result<ApiKeyStatus, RepositoryError>)
    ensures
        match spec_key_status(raw@) {
            Some(s) => r == Ok::<ApiKeyStatus, RepositoryError>(s),
            None => r matches Err(RepositoryError::Unavailable(m)) && m@ == corrupt_key_text(
                "неизвестный статус "@ + raw@,
            ),
        },
{
    if str_eq(raw, "active") {
        Ok(ApiKeyStatus::Active)
    } else if str_eq(raw, "revoked") {
        Ok(ApiKeyStatus::Revoked)
    } else {
        let mut what = String::new();
        what.push_str("неизвестный статус ");
        what.push_str(raw);
        Err(corrupt(what.as_str()))
    }
}

/// A key row, rebuilt through the domain's honest reconstitution: the label
/// must parse and the status must be known.
pub fn reconstitute_key(
    id: u128,
    owner: u128,
    label: String,
    key_hash: String,
    status: String,
    created_at: Timestamp,
) -> (r: Result<ApiKey, RepositoryError>)
    ensures
        match ApiKeyLabel::spec_parse(label@) {
            Err(_) => r matches Err(RepositoryError::Unavailable(m)) && m@ == corrupt_key_text("метка"@),
            Ok(l) => match spec_key_status(status@) {
                None => r matches Err(RepositoryError::Unavailable(m)) && m@ == corrupt_key_text(
                    "неизвестный статус "@ + status@,
                ),
                Some(s) => r matches Ok(k) && k@ == (ApiKeyView {
                    id: Id::spec_from_uuid(id),
                    owner: Id::spec_from_uuid(owner),
                    label: l,
                    hash: key_hash@,
                    status: s,
                    created_at,
                }),
            },
        },
{
    let label = match ApiKeyLabel::parse(label.as_str()) {
        Ok(l) => l,
        Err(_) => return Err(corrupt("метка")),
    };
    let status = parse_status(status.as_str())?;
    Ok(ApiKey::reconstitute(
        Id::from_uuid(id),
        Id::from_uuid(owner),
        label,
        ApiKeyHash::from_storage(key_hash),
        status,
        created_at,
    ))
}

/// Law: a status is read back from the text it is stored as.
pub proof fn law_key_status_roundtrip(status: ApiKeyStatus)
    ensures
        spec_key_status(status.spec_as_str()) == Some(status),
{
    reveal_strlit("active");
    reveal_strlit("revoked");
    assert("active"@[0] != "revoked"@[0]);
}

/// Law: a key is read back from the row it is stored as: its label was parsed
/// when it was issued and parses to itself, its hash is stored as it is, and
/// its status is stored by name.
pub proof fn law_key_store_roundtrip(k: ApiKeyView)
    requires
        ApiKeyLabel::spec_parse(k.label) == Ok::<Seq<char>, ApiKeyLabelError>(k.label),
    ensures
        spec_key_status(k.status.spec_as_str()) == Some(k.status),
        (ApiKeyView {
            id: Id::spec_from_uuid(k.id@),
            owner: Id::spec_from_uuid(k.owner@),
            label: k.label,
            hash: k.hash,
            status: k.status,
            created_at: k.created_at,
        }) == k,
{
    law_key_status_roundtrip(k.status);
}

} // verus!
