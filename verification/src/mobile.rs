//! The mobile client's side of the HTTP contract: the minimal shapes it reads
//! (mirrors of the API's JSON), how it reads the status of a write, and
//! when a profile offers to write a message.

use vstd::prelude::*;

use crate::text::str_eq;

verus! {

/// The base of the API. On a device the real host is configured; the default
/// is local (for checks on the host or a simulator).
pub const API_BASE: &'static str = "http://127.0.0.1:8080";

/// An item of the feed.
#[derive(Clone)]
pub struct FeedItemDto {
    pub author_handle: String,
    pub body: String,
    pub group_slug: Option<String>,
    pub group_name: Option<String>,
}

/// The current user.
#[derive(Clone)]
pub struct MeDto {
    pub handle: String,
}

/// A profile.
#[derive(Clone)]
pub struct ProfileDto {
    pub user_id: String,
    pub handle: String,
    pub display_name: String,
    pub subculture: String,
    pub bio: Option<String>,
    pub verified: bool,
}

/// A listing card.
#[derive(Clone)]
pub struct ListingDto {
    pub title: String,
    pub seller_handle: String,
    pub price: u64,
    pub status: String,
}

/// A conversation in the list.
#[derive(Clone)]
pub struct ConversationDto {
    pub conversation_id: String,
    pub counterpart_handle: String,
    pub last_message: String,
}

/// A message of a thread.
#[derive(Clone)]
pub struct MessageDto {
    pub author_handle: String,
    pub body: String,
}

/// A community card.
#[derive(Clone)]
pub struct GroupDto {
    pub group_id: String,
    pub slug: String,
    pub name: String,
    pub kind: String,
    pub member_count: u32,
}

/// What the user is told of the status of a write: success for `2xx`, else a
/// short reason by the status.
pub open spec fn spec_write_outcome(status: u16) -> Result<(), Seq<char>> {
    if 200 <= status <= 299 {
        Ok(())
    } else if status == 401 {
        Err("сессия истекла — войди заново"@)
    } else if status == 403 {
        Err("недостаточно прав"@)
    } else if status == 404 {
        Err("не найдено"@)
    } else if status == 409 {
        Err("конфликт состояния"@)
    } else if status == 422 {
        Err("проверь ввод"@)
    } else {
        Err("не удалось выполнить"@)
    }
}

/// The outcome of a write, read from its HTTP status.
pub fn write_outcome(status: u16) -> (r: Result<(), String>)
    ensures
        match spec_write_outcome(status) {
            Ok(()) => r is Ok,
            Err(text) => r matches Err(m) && m@ == text,
        },
{
    if 200 <= status && status <= 299 {
        Ok(())
    } else if status == 401 {
        Err("сессия истекла — войди заново".to_owned())
    } else if status == 403 {
        Err("недостаточно прав".to_owned())
    } else if status == 404 {
        Err("не найдено".to_owned())
    } else if status == 409 {
        Err("конфликт состояния".to_owned())
    } else if status == 422 {
        Err("проверь ввод".to_owned())
    } else {
        Err("не удалось выполнить".to_owned())
    }
}

/// Whether the profile of `handle` offers to write a message: only to a
/// logged-in viewer, and never on the viewer's own profile.
pub fn can_message(logged_in: bool, me: Option<&str>, handle: &str) -> (r: bool)
    ensures
        r == (logged_in && !(me matches Some(m) && m@ == handle@)),
{
    if !logged_in {
        return false;
    }
    match me {
        Some(m) => !str_eq(m, handle),
        None => true,
    }
}

} // verus!
