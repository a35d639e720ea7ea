//! babangida: the rules of an invite-only social network, proved with Verus.
//!
//! The library holds the domain (identities and invites, sessions, profiles,
//! posts, communities, private messages, the flea market, verification,
//! music, API keys), the decisions of the use cases, the reading of stored
//! rows back into the domain, and the pieces of the HTTP contract that are
//! decisions rather than I/O. The server and the mobile client around it live
//! in `app/`.

pub mod api;
pub mod application;
pub mod domain;
pub mod infrastructure;
pub mod mobile;
pub mod shared;
pub mod text;
