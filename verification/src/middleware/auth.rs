//! The auth guard: from the `Authorization` header of a request to the
//! identity of the caller, or a refusal. It stores nothing and changes
//! nothing.

use vstd::prelude::*;
use crate::entities::api_response::{ApiError, ApiErrorView};
use crate::identity::{decimal, lemma_parse_decimal, parse_id, parsed_id};
use crate::token::{granted, identity_view, validation, TokenError, TokenService};

verus! {

/// The authenticated caller of a protected endpoint.
#[derive(Debug, Clone, PartialEq, Eq)]
pub struct AuthUser {
    pub user_id: String,
}

/// What comes before the token in the `Authorization` header.
pub open spec fn bearer_prefix() -> Seq<char> {
    "Bearer "@
}

/// The token that a header value carries, if it has the bearer form.
pub open spec fn bearer_part(header: Seq<char>) -> Option<Seq<char>> {
    if bearer_prefix().is_prefix_of(header) {
        Some(header.skip(bearer_prefix().len() as int))
    } else {
        None
    }
}

/// What the guard answers to a validation outcome: the identity, a
/// configuration fault, or one and the same refusal for every token that
/// did not validate.
pub open spec fn admitted(outcome: Result<Seq<char>, TokenError>) -> Result<
    Seq<char>,
    ApiErrorView,
> {
    match outcome {
        Ok(identity) => Ok(identity),
        Err(TokenError::Configuration) => Err(
            ApiErrorView::InternalError("JWT_SECRET no configurado"@),
        ),
        Err(_) => Err(ApiErrorView::Unauthorized("invalid or expired token"@)),
    }
}

/// The answer of a guard that lets the caller through as `identity`.
pub open spec fn accepted_as(identity: Seq<char>) -> Result<Seq<char>, ApiErrorView> {
    Ok(identity)
}

/// What the guard makes of a request at `now`: no header is "no token", a
/// header of another form is "malformed token", and a token is admitted as
/// its validation says.
pub open spec fn guard(
    authorization: Option<Seq<char>>,
    secret: Option<Seq<char>>,
    now: u64,
) -> Result<Seq<char>, ApiErrorView> {
    match authorization {
        None => Err(ApiErrorView::Unauthorized("no token"@)),
        Some(header) => match bearer_part(header) {
            None => Err(ApiErrorView::Unauthorized("malformed token"@)),
            Some(token) => admitted(validation(secret, token, now)),
        },
    }
}

/// The identity or the error of a guard's answer, with text as characters.
pub open spec fn guard_view(r: Result<AuthUser, ApiError>) -> Result<Seq<char>, ApiErrorView> {
    match r {
        Ok(user) => Ok(user.user_id@),
        Err(e) => Err(e@),
    }
}

/// The characters of an optional header value.
pub open spec fn header_view(header: Option<&str>) -> Option<Seq<char>> {
    match header {
        Some(h) => Some(h@),
        None => None,
    }
}

/// The token of a header value of the form `Bearer <token>`; `None` for any
/// other value.
pub fn bearer_token<'a>(header: &'a str) -> (r: Option<&'a str>)
    ensures
        header_view(r) == bearer_part(header@),
{
    proof {
        reveal_strlit("Bearer ");
    }
    let prefix = "Bearer ";
    let n = header.unicode_len();
    if n < 7 {
        return None;
    }
    let mut i: usize = 0;
    while i < 7
        invariant
            i <= 7,
            n == header@.len(),
            n >= 7,
            prefix@ == bearer_prefix(),
            prefix@.len() == 7,
            forall|k: int| 0 <= k < i ==> header@[k] == prefix@[k],
        decreases 7 - i,
    {
        if header.get_char(i) != prefix.get_char(i) {
            assert(header@.subrange(0, 7)[i as int] != prefix@[i as int]);
            return None;
        }
        i = i + 1;
    }
    let token = header.substring_char(7, n);
    assert(header@.subrange(0, 7) =~= prefix@);
    Some(token)
}

impl AuthUser {
    /// What the guard answers once the token service has: see `admitted`.
    pub fn from_validation(outcome: Result<String, TokenError>) -> (r: Result<AuthUser, ApiError>)
        ensures
            guard_view(r) == admitted(identity_view(outcome)),
    {
        match outcome {
            Ok(identity) => Ok(AuthUser { user_id: identity }),
            Err(TokenError::Configuration) => Err(
                ApiError::InternalError("JWT_SECRET no configurado".to_owned()),
            ),
            Err(_) => Err(ApiError::Unauthorized("invalid or expired token".to_owned())),
        }
    }

    /// Runs the guard on the value of the `Authorization` header of a
    /// request, `None` where the request has none, at the time `now`.
    ///
    /// A missing header is refused as `Unauthorized("no token")`, a value
    /// without the prefix `Bearer ` as `Unauthorized("malformed token")`, and
    /// a token that does not validate, for whichever reason, as
    /// `Unauthorized("invalid or expired token")`. A service without a secret
    /// gives an internal error. Otherwise the caller is the token's subject.
    pub fn from_request_parts(authorization: Option<&str>, tokens: &TokenService, now: u64) -> (r:
        Result<AuthUser, ApiError>)
        ensures
            guard_view(r) == guard(header_view(authorization), tokens.secret(), now),
    {
        match authorization {
            None => Err(ApiError::Unauthorized("no token".to_owned())),
            Some(header) => match bearer_token(header) {
                None => Err(ApiError::Unauthorized("malformed token".to_owned())),
                Some(token) => AuthUser::from_validation(tokens.validate(token, now)),
            },
        }
    }

    /// The numeric id of the caller: a bad request where the identity does
    /// not spell one.
    pub fn numeric_id(&self) -> (r: Result<u64, ApiError>)
        ensures
            match parsed_id(self.user_id@) {
                Some(id) => r matches Ok(n) && n == id,
                None => r matches Err(e) && e@ == ApiErrorView::BadRequest(
                    "ID de usuario inválido"@,
                ),
            },
    {
        match parse_id(self.user_id.as_str()) {
            Some(id) => Ok(id),
            None => Err(ApiError::BadRequest("ID de usuario inválido".to_owned())),
        }
    }
}

/// Whatever the request holds, a guard whose service has a secret either
/// yields an identity or refuses with status 401; and two tokens that fail to
/// validate, for whichever reasons, are refused alike.
pub proof fn lemma_refusals_are_unauthorized(
    authorization: Option<Seq<char>>,
    secret: Seq<char>,
    now: u64,
    first: TokenError,
    second: TokenError,
)
    requires
        first != TokenError::Configuration,
        second != TokenError::Configuration,
    ensures
        guard(authorization, Some(secret), now) matches Err(e) ==> e.status() == 401,
        admitted(Err(first)) == admitted(Err(second)),
{
}

/// A request that carries `Bearer ` and a token that validates at `now` is
/// let through as the token's subject. So a token that was issued for an
/// identity passes the guard for that identity thirty minutes later, and at
/// every other time before its hour is over; and where the identity is the
/// decimal spelling of a user id, as the one that a login issues, the caller
/// is that user.
pub proof fn lemma_guard_accepts_valid_token(
    token: Seq<char>,
    identity: Seq<char>,
    secret: Seq<char>,
    now: u64,
    user_id: u64,
)
    requires
        validation(Some(secret), token, now) == granted(identity),
    ensures
        guard(Some(bearer_prefix() + token), Some(secret), now) == accepted_as(identity),
        identity == decimal(user_id as nat) ==> parsed_id(identity) == Some(user_id),
{
    reveal_strlit("Bearer ");
    let header = bearer_prefix() + token;
    assert(header.subrange(0, bearer_prefix().len() as int) =~= bearer_prefix());
    assert(header.skip(bearer_prefix().len() as int) =~= token);
    if identity == decimal(user_id as nat) {
        lemma_parse_decimal(user_id);
    }
}

} // verus!
