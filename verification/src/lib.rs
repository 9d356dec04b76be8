//! Accounts, password login with bearer-token sessions, and a follow graph
//! between users: the rules of a small REST backend, with the storage and the
//! transport left to the caller.

pub mod entities;
pub mod handlers;
pub mod identity;
pub mod middleware;
pub mod models;
pub mod password;
pub mod token;
