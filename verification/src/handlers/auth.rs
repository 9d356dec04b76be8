//! Login: from a stored user and a password to a session token.

use vstd::prelude::*;
use crate::entities::api_response::{text, ApiError, ApiErrorView, ApiResponse};
use crate::entities::auth::{LoginPayload, LoginResponse};
use crate::identity::{decimal, parsed_id, render_id};
use crate::models::users::{User, UserLookup};
use crate::password::{decided, verification, verify, HashError};
use crate::token::{
    granted,
    refused,
    signed_token,
    validation,
    TokenError,
    TokenService,
    TOKEN_TTL_SECONDS,
};

verus! {

/// The refusal that a check of the password comes to, if any: a stored hash
/// that cannot be read is an internal fault, a password that does not match
/// is unauthorized.
pub open spec fn credentials_refusal(outcome: Result<bool, HashError>) -> Option<ApiErrorView> {
    match outcome {
        Err(_) => Some(ApiErrorView::InternalError("Error al procesar el hash"@)),
        Ok(false) => Some(ApiErrorView::Unauthorized("Contraseña incorrecta"@)),
        Ok(true) => None,
    }
}

/// The refusal that a login comes to, if any: the storage failed, the user is
/// unknown, the credentials are refused, or the server has no secret.
pub open spec fn login_refusal(
    found: UserLookup,
    password: Seq<char>,
    secret: Option<Seq<char>>,
) -> Option<ApiErrorView> {
    match found {
        UserLookup::Fault => Some(ApiErrorView::InternalError("Error al consultar el usuario"@)),
        UserLookup::Absent => Some(ApiErrorView::NotFound("Usuario no encontrado"@)),
        UserLookup::Found(user) => match credentials_refusal(
            verification(password, user.password_hash@),
        ) {
            Some(refusal) => Some(refusal),
            None => match secret {
                None => Some(ApiErrorView::InternalError("JWT_SECRET no configurado"@)),
                Some(_) => None,
            },
        },
    }
}

/// Whether a password check lets the login go on.
pub fn credentials_checked(outcome: Result<bool, HashError>) -> (r: Result<(), ApiError>)
    ensures
        match credentials_refusal(outcome) {
            Some(refusal) => r matches Err(e) && e@ == refusal,
            None => r is Ok,
        },
{
    match outcome {
        Err(_) => Err(ApiError::InternalError("Error al procesar el hash".to_owned())),
        Ok(false) => Err(ApiError::Unauthorized("Contraseña incorrecta".to_owned())),
        Ok(true) => Ok(()),
    }
}

/// The answer of a login whose credentials were accepted, once the token
/// service has answered: the token in a successful envelope, or an internal
/// error that tells a missing secret from a signer that failed.
pub fn token_issued(outcome: Result<String, TokenError>) -> (r: Result<
    ApiResponse<LoginResponse>,
    ApiError,
>)
    ensures
        match outcome {
            Ok(token) => r matches Ok(response) && response.is_success(
                LoginResponse { token },
                Some("Login exitoso"@),
            ),
            Err(TokenError::Configuration) => r matches Err(e) && e@ == ApiErrorView::InternalError(
                "JWT_SECRET no configurado"@,
            ),
            Err(_) => r matches Err(e) && e@ == ApiErrorView::InternalError(
                "Error al generar el token"@,
            ),
        },
{
    match outcome {
        Ok(token) => Ok(ApiResponse::success_with_message(LoginResponse { token }, "Login exitoso")),
        Err(TokenError::Configuration) => Err(
            ApiError::InternalError("JWT_SECRET no configurado".to_owned()),
        ),
        Err(_) => Err(ApiError::InternalError("Error al generar el token".to_owned())),
    }
}

/// Logs in with what the storage answered to the lookup of the payload's
/// email, at the time `now`.
///
/// A storage that failed is an internal error; an unknown user is not found;
/// a stored hash that cannot be read is an internal error; a password that
/// does not match is unauthorized; a server without a secret is an internal
/// error. In every other case the login succeeds, and the answer carries a
/// token for the user's id, in decimal, that validates for that identity
/// until one hour after `now` and is expired from then on; the identity
/// spells the user's id again.
pub fn login(found: &UserLookup, payload: &LoginPayload, tokens: &TokenService, now: u64) -> (r:
    Result<ApiResponse<LoginResponse>, ApiError>)
    requires
        now + TOKEN_TTL_SECONDS <= u64::MAX,
    ensures
        login_refusal(*found, payload.password@, tokens.secret()) is None <==> r is Ok,
        match login_refusal(*found, payload.password@, tokens.secret()) {
            Some(refusal) => r matches Err(e) && e@ == refusal,
            None => r matches Ok(response) && *found matches UserLookup::Found(user) && ({
                let subject = decimal(user.id as nat);
                &&& response.succeeded(Some("Login exitoso"@))
                &&& parsed_id(subject) == Some(user.id)
                &&& response.data->0.token@ == signed_token(
                    subject,
                    (now + TOKEN_TTL_SECONDS) as u64,
                    tokens.secret()->0,
                )
                &&& forall|at: u64|
                    at < now + TOKEN_TTL_SECONDS ==> #[trigger] validation(
                        tokens.secret(),
                        response.data->0.token@,
                        at,
                    ) == granted(subject)
                &&& forall|at: u64|
                    at >= now + TOKEN_TTL_SECONDS ==> #[trigger] validation(
                        tokens.secret(),
                        response.data->0.token@,
                        at,
                    ) == refused(TokenError::Expired)
            }),
        },
{
    let user = match found {
        UserLookup::Fault => {
            return Err(ApiError::InternalError("Error al consultar el usuario".to_owned()));
        },
        UserLookup::Absent => {
            return Err(ApiError::NotFound("Usuario no encontrado".to_owned()));
        },
        UserLookup::Found(user) => user,
    };
    match credentials_checked(verify(payload.password.as_str(), user.password_hash.as_str())) {
        Err(e) => {
            return Err(e);
        },
        Ok(()) => {},
    }
    let subject = render_id(user.id);
    token_issued(tokens.issue(subject.as_str(), now))
}

/// A user whose stored hash verifies against a password, as every hash does
/// that `hash` or `create_user` made from that password, is let in with it
/// whenever the server has a secret; so are two users who registered with
/// one password, each under a hash of their own.
pub proof fn lemma_verified_password_logs_in(
    first: User,
    second: User,
    password: Seq<char>,
    secret: Seq<char>,
)
    requires
        verification(password, first.password_hash@) == decided(true),
        verification(password, second.password_hash@) == decided(true),
    ensures
        login_refusal(UserLookup::Found(first), password, Some(secret)) is None,
        login_refusal(UserLookup::Found(second), password, Some(secret)) is None,
{
}

} // verus!
