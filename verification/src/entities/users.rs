//! The bodies of the user endpoints.

use vstd::prelude::*;
use crate::models::users::User;

verus! {

/// What a client sends to register.
#[derive(Debug, Clone, PartialEq, Eq)]
pub struct UserCreatePayload {
    pub username: String,
    pub email: String,
    pub password: String,
}

/// A user as clients see it: the stored record without its password hash.
/// Times are Unix seconds.
#[derive(Debug, Clone, PartialEq, Eq)]
pub struct UserResponse {
    pub id: u64,
    pub username: String,
    pub email: String,
    pub created_at: Option<i64>,
    pub updated_at: Option<i64>,
}

impl UserResponse {
    /// Whether this is the public face of `user`.
    pub open spec fn shows(self, user: User) -> bool {
        &&& self.id == user.id
        &&& self.username == user.username
        &&& self.email == user.email
        &&& self.created_at == user.created_at
        &&& self.updated_at == user.updated_at
    }

    /// The public face of `user`: every field but the password hash.
    pub fn of(user: User) -> (r: UserResponse)
        ensures
            r.shows(user),
    {
        UserResponse {
            id: user.id,
            username: user.username,
            email: user.email,
            created_at: user.created_at,
            updated_at: user.updated_at,
        }
    }
}

} // verus!
