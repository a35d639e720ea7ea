//! The content context: posts. Reading the feed is a read model of the
//! application; here is only the write side.

use vstd::prelude::*;

use crate::domain::identity::UserId;
use crate::shared::id::Id;
use crate::shared::time::Timestamp;
use crate::text::{
    check_text, decimal, decimal_seq, lemma_trim_idempotent, text_fault, trim_seq, view_outcome,
    TextFault,
};

verus! {

/// Marker of the typed [`PostId`].
#[derive(Debug, Clone, Copy, PartialEq, Eq, Hash)]
pub struct PostMarker;

/// Identifier of a post.
pub type PostId = Id<PostMarker>;

/// Body of a post: 1..=5000 characters after trimming.
#[derive(Debug, PartialEq, Eq)]
pub struct PostBody(String);

impl View for PostBody {
    type V = Seq<char>;

    closed spec fn view(&self) -> Seq<char> {
        self.0@
    }
}

impl Clone for PostBody {
    fn clone(&self) -> (r: Self)
        ensures
            r@ == self@,
    {
        PostBody(self.0.clone())
    }
}

/// A breach of the [`PostBody`] rules.
#[derive(Debug, Clone, PartialEq, Eq, Structural)]
pub enum PostBodyError {
    Empty,
    TooLong { len: usize },
}

impl PostBody {
    /// Maximum length, in characters.
    pub const MAX_LEN: usize = 5000;

    /// What [`PostBody::parse`] gives for a text: the trimmed text, or why it is
    /// refused.
    pub open spec fn spec_parse(input: Seq<char>) -> Result<Seq<char>, PostBodyError> {
        match text_fault(input, 5000) {
            Some(TextFault::Empty) => Err(PostBodyError::Empty),
            Some(TextFault::TooLong(len)) => Err(PostBodyError::TooLong { len }),
            None => Ok(trim_seq(input)),
        }
    }

    /// Parse: trimmed, 1..=`MAX_LEN` characters.
    pub fn parse(input: &str) -> (r: Result<Self, PostBodyError>)
        ensures
            view_outcome(r) == Self::spec_parse(input@),
    {
        match check_text(input, Self::MAX_LEN) {
            Ok(t) => Ok(PostBody(t.to_owned())),
            Err(TextFault::Empty) => Err(PostBodyError::Empty),
            Err(TextFault::TooLong(len)) => Err(PostBodyError::TooLong { len }),
        }
    }

    /// The text.
    pub fn as_str(&self) -> (r: &str)
        ensures
            r@ == self@,
    {
        self.0.as_str()
    }
}

/// What a post is, in mathematical terms.
pub struct PostView {
    pub id: PostId,
    pub author: UserId,
    pub body: Seq<char>,
    pub created_at: Timestamp,
}

/// A post: the root of the content aggregate.
#[derive(Debug, Clone, PartialEq, Eq)]
pub struct Post {
    id: PostId,
    author: UserId,
    body: PostBody,
    created_at: Timestamp,
}

impl View for Post {
    type V = PostView;

    closed spec fn view(&self) -> PostView {
        PostView { id: self.id, author: self.author, body: self.body@, created_at: self.created_at }
    }
}

impl Post {
    /// Create a post. The id and the moment come from the boundary.
    pub fn create(id: PostId, author: UserId, body: PostBody, now: Timestamp) -> (r: Self)
        ensures
            r@ == (PostView { id, author, body: body@, created_at: now }),
    {
        Post { id, author, body, created_at: now }
    }

    pub fn id(&self) -> (r: PostId)
        ensures
            r == self@.id,
    {
        self.id
    }

    pub fn author(&self) -> (r: UserId)
        ensures
            r == self@.author,
    {
        self.author
    }

    pub fn body(&self) -> (r: &PostBody)
        ensures
            r@ == self@.body,
    {
        &self.body
    }

    pub fn created_at(&self) -> (r: Timestamp)
        ensures
            r == self@.created_at,
    {
        self.created_at
    }
}

/// Law: a parsed post body parses to itself, so that the text that is stored is
/// what loading reads back.
pub proof fn law_post_body_parse_idempotent(input: Seq<char>)
    requires
        PostBody::spec_parse(input) is Ok,
    ensures
        PostBody::spec_parse(PostBody::spec_parse(input)->Ok_0) == PostBody::spec_parse(input),
{
    lemma_trim_idempotent(input);
}

impl PostBodyError {
    /// The text of the error, as a reader sees it.
    pub open spec fn spec_message(self) -> Seq<char> {
        match self {
            PostBodyError::Empty => "пост пустой"@,
            PostBodyError::TooLong { len } => "пост слишком длинный: "@
                + decimal_seq(len as nat)
                + " символов"@,
        }
    }

    /// The text of the error, as a reader sees it.
    pub fn message(&self) -> (r: String)
        ensures
            r@ == self.spec_message(),
    {
        match self {
            PostBodyError::Empty => "пост пустой".to_owned(),
            PostBodyError::TooLong { len } => {
                let mut s = "пост слишком длинный: ".to_owned();
                s.push_str(decimal(*len as u128).as_str());
                s.push_str(" символов");
                s
            },
        }
    }
}

} // verus!
