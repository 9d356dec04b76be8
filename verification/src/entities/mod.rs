//! The values that cross the HTTP boundary.

pub mod api_response;
pub mod auth;
pub mod claims;
pub mod users;
