//! What runs before a protected handler.

pub mod auth;
