//! What each endpoint decides, given what the storage answered.

pub mod auth;
pub mod user;
