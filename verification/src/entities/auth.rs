//! The bodies of the login endpoint.

use vstd::prelude::*;

verus! {

/// What a client sends to log in.
#[derive(Debug, Clone, PartialEq, Eq)]
pub struct LoginPayload {
    pub email: String,
    pub password: String,
}

/// What a successful login answers: the bearer token of the session.
#[derive(Debug, Clone, PartialEq, Eq)]
pub struct LoginResponse {
    pub token: String,
}

} // verus!
