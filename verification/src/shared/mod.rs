pub mod id;
pub mod time;
