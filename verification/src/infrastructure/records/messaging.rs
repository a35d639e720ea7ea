//! The rows of conversations.

use vstd::prelude::*;

use crate::domain::identity::UserId;
use crate::domain::messaging::{canonical_pair, Conversation, ConversationView};
use crate::domain::RepositoryError;
use crate::infrastructure::records::identity::unavailable;
use crate::shared::id::{lemma_id_view_injective, lemma_spec_from_uuid, Id};
use crate::shared::time::Timestamp;

verus! {

broadcast use {lemma_id_view_injective, lemma_spec_from_uuid};

/// The canonical order of a pair, as the domain keeps it: the smaller UUID
/// first.
pub fn canonical(a: UserId, b: UserId) -> (r: (u128, u128))
    ensures
        r == (if a@ <= b@ {
            (a@, b@)
        } else {
            (b@, a@)
        }),
{
    let (x, y) = (a.as_uuid(), b.as_uuid());
    if x <= y {
        (x, y)
    } else {
        (y, x)
    }
}

/// A conversation row (the pair already canonical), rebuilt through the
/// domain; a row of one participant twice is corrupt.
pub fn row_to_conversation(id: u128, lo: u128, hi: u128, opened_at: Timestamp) -> (r: Result<Conversation, RepositoryError>)
    ensures
        match r {
            Ok(c) => {
                &&& lo != hi
                &&& c@ == (ConversationView {
                    id: Id::spec_from_uuid(id),
                    lower: canonical_pair(Id::spec_from_uuid(lo), Id::spec_from_uuid(hi)).0,
                    higher: canonical_pair(Id::spec_from_uuid(lo), Id::spec_from_uuid(hi)).1,
                    opened_at,
                })
            },
            Err(e) => lo == hi && (e matches RepositoryError::Unavailable(m) && m@ == "повреждённый диалог в БД"@),
        },
{
    match Conversation::open(Id::from_uuid(id), Id::from_uuid(lo), Id::from_uuid(hi), opened_at) {
        Ok((conversation, _opened)) => Ok(conversation),
        Err(_) => Err(unavailable("повреждённый диалог в БД")),
    }
}

/// Law: a conversation is read back from the row it is stored as: the row
/// holds the pair in its canonical order (two different users, the smaller
/// UUID first), and reading it gives the same pair in the same order.
pub proof fn law_conversation_store_roundtrip(c: ConversationView)
    requires
        c.lower@ < c.higher@,
    ensures
        c.lower@ != c.higher@,
        (ConversationView {
            id: Id::spec_from_uuid(c.id@),
            lower: canonical_pair(Id::spec_from_uuid(c.lower@), Id::spec_from_uuid(c.higher@)).0,
            higher: canonical_pair(Id::spec_from_uuid(c.lower@), Id::spec_from_uuid(c.higher@)).1,
            opened_at: c.opened_at,
        }) == c,
{
}

} // verus!
