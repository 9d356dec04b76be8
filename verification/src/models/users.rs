//! The user record.

use vstd::prelude::*;

verus! {

/// A user as the storage holds it. `password_hash` is the encoded hash of the
/// password, never the password; times are Unix seconds.
#[derive(Debug, Clone, PartialEq, Eq)]
pub struct User {
    pub id: u64,
    pub username: String,
    pub email: String,
    pub password_hash: String,
    pub created_at: Option<i64>,
    pub updated_at: Option<i64>,
}

/// What the storage answered to the lookup of one user.
#[derive(Debug, Clone, PartialEq, Eq)]
pub enum UserLookup {
    /// The user is stored, and this is the record.
    Found(User),
    /// No such user is stored.
    Absent,
    /// The storage failed, so that nothing is known.
    Fault,
}

} // verus!
