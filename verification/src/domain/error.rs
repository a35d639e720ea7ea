//! The failure of a repository port, shared by all contexts.

use vstd::prelude::*;

verus! {

/// A repository could not do what was asked.
#[derive(Debug, Clone, PartialEq, Eq)]
pub enum RepositoryError {
    /// The record is not there.
    NotFound,
    /// A uniqueness rule of the store was hit (a taken handle, a second
    /// acceptance of one invite).
    Conflict,
    /// The store failed; the text says how, for the logs only.
    Unavailable(String),
}

impl RepositoryError {
    /// The text of the error, as a reader sees it.
    pub open spec fn spec_message(self) -> Seq<char> {
        match self {
            RepositoryError::NotFound => "не найдено"@,
            RepositoryError::Conflict => "конфликт"@,
            RepositoryError::Unavailable(detail) => "хранилище недоступно: "@ + detail@,
        }
    }

    /// The text of the error, as a reader sees it.
    pub fn message(&self) -> (r: String)
        ensures
            r@ == self.spec_message(),
    {
        match self {
            RepositoryError::NotFound => "не найдено".to_owned(),
            RepositoryError::Conflict => "конфликт".to_owned(),
            RepositoryError::Unavailable(detail) => {
                let mut s = "хранилище недоступно: ".to_owned();
                s.push_str(detail.as_str());
                s
            },
        }
    }
}

} // verus!
