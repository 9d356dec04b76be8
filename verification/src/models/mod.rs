//! The records that the storage holds, and the rules that keep them
//! consistent.

pub mod follows;
pub mod messages;
pub mod streams;
pub mod users;
