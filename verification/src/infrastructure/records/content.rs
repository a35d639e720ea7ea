//! The rows of posts.

use vstd::prelude::*;

use crate::domain::content::{Post, PostBody, PostBodyError, PostView};
use crate::domain::RepositoryError;
use crate::infrastructure::records::identity::unavailable;
use crate::shared::id::{lemma_id_view_injective, lemma_spec_from_uuid, Id};
use crate::shared::time::Timestamp;

verus! {

broadcast use {lemma_id_view_injective, lemma_spec_from_uuid};

/// A post row; a body that breaks the rules marks the row corrupt.
pub fn row_to_post(id: u128, author: u128, body: String, created_at: Timestamp) -> (r: Result<Post, RepositoryError>)
    ensures
        match PostBody::spec_parse(body@) {
            Ok(b) => r matches Ok(post) && post@ == (PostView {
                id: Id::spec_from_uuid(id),
                author: Id::spec_from_uuid(author),
                body: b,
                created_at,
            }),
            Err(_) => r matches Err(RepositoryError::Unavailable(m)) && m@ == "повреждённый пост в БД"@,
        },
{
    let body = match PostBody::parse(body.as_str()) {
        Ok(b) => b,
        Err(_) => return Err(unavailable("повреждённый пост в БД")),
    };
    Ok(Post::create(Id::from_uuid(id), Id::from_uuid(author), body, created_at))
}

/// Law: a post is read back from the row it is stored as: its body was parsed
/// when it was written and parses to itself.
pub proof fn law_post_store_roundtrip(p: PostView)
    requires
        PostBody::spec_parse(p.body) == Ok::<Seq<char>, PostBodyError>(p.body),
    ensures
        (PostView {
            id: Id::spec_from_uuid(p.id@),
            author: Id::spec_from_uuid(p.author@),
            body: p.body,
            created_at: p.created_at,
        }) == p,
{
}

} // verus!
