//! The token service: signed, time-bounded, stateless session tokens.
//!
//! A token is a JWT signed with HMAC-SHA256 under a secret that the server
//! holds. Signing and signature checking are `jsonwebtoken`'s; the validity
//! window is decided here.

use vstd::prelude::*;
use crate::entities::claims::Claims;

verus! {

/// How long a token lives, in seconds: one hour.
pub const TOKEN_TTL_SECONDS: u64 = 3600;

/// Why a token was not issued or not accepted.
#[derive(Debug, Clone, Copy, PartialEq, Eq, Structural)]
pub enum TokenError {
    /// The signature does not belong to the token under the server's secret.
    InvalidSignature,
    /// The token's expiry is not after the current time.
    Expired,
    /// The token is not a token of the expected structure.
    Malformed,
    /// The server holds no signing secret.
    Configuration,
    /// The signer did not produce a token.
    Encoding,
}

/// Why the decoder refused a token.
#[derive(Debug, Clone, Copy, PartialEq, Eq, Structural)]
pub enum DecodeError {
    /// The signature check failed.
    InvalidSignature,
    /// The token could not be read as a token with the expected claims.
    Malformed,
}

/// The token that `jsonwebtoken::encode` produces for the claims
/// `{sub, exp}` under an HMAC-SHA256 key made of `secret`.
pub uninterp spec fn signed_token(sub: Seq<char>, exp: u64, secret: Seq<char>) -> Seq<char>;

/// What `jsonwebtoken::decode` makes of `token` under an HMAC-SHA256 key made
/// of `secret`, with the expiry check switched off: the claims `(sub, exp)`,
/// or the reason for which the token is refused.
pub uninterp spec fn decoded_token(token: Seq<char>, secret: Seq<char>) -> Result<
    (Seq<char>, u64),
    DecodeError,
>;

/// The claims or the error of a decoding result, with text as characters.
pub open spec fn claims_view(decoded: Result<Claims, DecodeError>) -> Result<
    (Seq<char>, u64),
    DecodeError,
> {
    match decoded {
        Ok(claims) => Ok(claims@),
        Err(e) => Err(e),
    }
}

/// The identity or the error of a validation result, with text as characters.
pub open spec fn identity_view(outcome: Result<String, TokenError>) -> Result<
    Seq<char>,
    TokenError,
> {
    match outcome {
        Ok(identity) => Ok(identity@),
        Err(e) => Err(e),
    }
}

/// The decoding result of a token that carries the claims `(sub, exp)`.
pub open spec fn accepted(sub: Seq<char>, exp: u64) -> Result<(Seq<char>, u64), DecodeError> {
    Ok((sub, exp))
}

/// The outcome of a validation that yields `identity`.
pub open spec fn granted(identity: Seq<char>) -> Result<Seq<char>, TokenError> {
    Ok(identity)
}

/// The outcome of a validation that fails with `e`.
pub open spec fn refused(e: TokenError) -> Result<Seq<char>, TokenError> {
    Err(e)
}

/// The validity rule: decoded claims stand for their subject as long as the
/// expiry lies after `now`; a token that the decoder refused stays refused,
/// for the decoder's reason.
pub open spec fn checked(decoded: Result<(Seq<char>, u64), DecodeError>, now: u64) -> Result<
    Seq<char>,
    TokenError,
> {
    match decoded {
        Ok(claims) => if claims.1 > now {
            Ok(claims.0)
        } else {
            Err(TokenError::Expired)
        },
        Err(DecodeError::InvalidSignature) => Err(TokenError::InvalidSignature),
        Err(DecodeError::Malformed) => Err(TokenError::Malformed),
    }
}

/// What validation yields for `token` at `now` under an optional secret.
pub open spec fn validation(secret: Option<Seq<char>>, token: Seq<char>, now: u64) -> Result<
    Seq<char>,
    TokenError,
> {
    match secret {
        None => Err(TokenError::Configuration),
        Some(s) => checked(decoded_token(token, s), now),
    }
}

/// Signs the claims `{sub, exp}` with `jsonwebtoken::encode`, under the
/// default header (HMAC-SHA256) and a key made of the bytes of `secret`.
///
/// Believed of `encode`, not proved: it returns a token, since the key is of
/// the header's family, signing with HMAC-SHA256 cannot fail, and the header
/// and a map of one text and one whole number serialise; the token is a
/// function of the claims and the secret alone; and `jsonwebtoken::decode`
/// under the same secret accepts it and gives the same claims back.
#[verifier::external_body]
fn encode_claims(sub: &str, exp: u64, secret: &str) -> (r: Option<String>)
    ensures
        r is Some,
        r matches Some(token) ==> token@ == signed_token(sub@, exp, secret@),
        r matches Some(token) ==> decoded_token(token@, secret@) == accepted(sub@, exp),
{
    let mut claims = serde_json::Map::new();
    claims.insert("sub".to_string(), serde_json::Value::from(sub));
    claims.insert("exp".to_string(), serde_json::Value::from(exp));
    let key = jsonwebtoken::EncodingKey::from_secret(secret.as_bytes());
    jsonwebtoken::encode(&jsonwebtoken::Header::default(), &claims, &key).ok()
}

/// Checks the signature of `token` and reads its claims with
/// `jsonwebtoken::decode`, under a key made of the bytes of `secret` and the
/// default validation (HMAC-SHA256, `exp` required) with the expiry check
/// switched off, so that the clock is not read.
///
/// Believed of `decode`, not proved: its answer is a function of the token and
/// the secret alone. A failed signature check is reported as
/// `InvalidSignature`; every other refusal, and claims without a text `sub` or
/// a whole-number `exp`, as `Malformed`.
#[verifier::external_body]
fn decode_claims(token: &str, secret: &str) -> (r: Result<Claims, DecodeError>)
    ensures
        claims_view(r) == decoded_token(token@, secret@),
{
    let mut validation = jsonwebtoken::Validation::default();
    validation.validate_exp = false;
    let key = jsonwebtoken::DecodingKey::from_secret(secret.as_bytes());
    match jsonwebtoken::decode::<serde_json::Value>(token, &key, &validation) {
        Ok(data) => match (data.claims["sub"].as_str(), data.claims["exp"].as_u64()) {
            (Some(sub), Some(exp)) => Ok(Claims { sub: sub.to_string(), exp }),
            _ => Err(DecodeError::Malformed),
        },
        Err(e) => match e.kind() {
            jsonwebtoken::errors::ErrorKind::InvalidSignature => Err(DecodeError::InvalidSignature),
            _ => Err(DecodeError::Malformed),
        },
    }
}

/// Applies the validity rule to a decoding result: the subject of claims whose
/// expiry lies after `now`, `Expired` for claims whose expiry does not, and
/// the decoder's own refusal otherwise.
pub fn check_claims(decoded: Result<Claims, DecodeError>, now: u64) -> (r: Result<
    String,
    TokenError,
>)
    ensures
        identity_view(r) == checked(claims_view(decoded), now),
{
    match decoded {
        Ok(claims) => {
            if claims.exp > now {
                Ok(claims.sub)
            } else {
                Err(TokenError::Expired)
            }
        },
        Err(DecodeError::InvalidSignature) => Err(TokenError::InvalidSignature),
        Err(DecodeError::Malformed) => Err(TokenError::Malformed),
    }
}

/// What `issue` answers once the signer has: the token, or `Encoding` where
/// the signer gave none.
pub fn issued(encoded: Option<String>) -> (r: Result<String, TokenError>)
    ensures
        match encoded {
            Some(token) => r matches Ok(t) && t == token,
            None => r matches Err(TokenError::Encoding),
        },
{
    match encoded {
        Some(token) => Ok(token),
        None => Err(TokenError::Encoding),
    }
}

/// The token service, built once at startup around the signing secret.
pub struct TokenService {
    secret: Option<String>,
}

impl TokenService {
    /// The secret that the service signs with, if it has one.
    pub closed spec fn secret(&self) -> Option<Seq<char>> {
        match self.secret {
            Some(s) => Some(s@),
            None => None,
        }
    }

    /// A service around `secret`; with `None` every call fails with
    /// `Configuration`.
    pub fn new(secret: Option<String>) -> (service: Self)
        ensures
            service.secret() == match secret {
                Some(s) => Some(s@),
                None => None,
            },
    {
        TokenService { secret }
    }

    /// Issues a token for `identity` that expires one hour after `now`.
    ///
    /// Without a secret the call fails with `Configuration`. With one it
    /// succeeds, and the token is accepted by `validate` at every time before
    /// `now + TOKEN_TTL_SECONDS`, with `identity` as the result, and refused
    /// as `Expired` from then on.
    pub fn issue(&self, identity: &str, now: u64) -> (r: Result<String, TokenError>)
        requires
            now + TOKEN_TTL_SECONDS <= u64::MAX,
        ensures
            self.secret() is Some <==> r is Ok,
            r matches Err(e) ==> e == TokenError::Configuration,
            r matches Ok(token) ==> ({
                &&& token@ == signed_token(
                    identity@,
                    (now + TOKEN_TTL_SECONDS) as u64,
                    self.secret()->0,
                )
                &&& forall|at: u64|
                    at < now + TOKEN_TTL_SECONDS ==> #[trigger] validation(
                        self.secret(),
                        token@,
                        at,
                    ) == granted(identity@)
                &&& forall|at: u64|
                    at >= now + TOKEN_TTL_SECONDS ==> #[trigger] validation(
                        self.secret(),
                        token@,
                        at,
                    ) == refused(TokenError::Expired)
            }),
    {
        match &self.secret {
            None => Err(TokenError::Configuration),
            Some(secret) => {
                let exp: u64 = now + TOKEN_TTL_SECONDS;
                issued(encode_claims(identity, exp, secret.as_str()))
            },
        }
    }

    /// Validates `token` at `now`: the signature is checked against the
    /// secret, then the expiry against `now`.
    ///
    /// Without a secret the call fails with `Configuration`. A token whose
    /// signature check fails gives `InvalidSignature`, one that cannot be read
    /// gives `Malformed`, and one whose expiry is not after `now` gives
    /// `Expired`; any other token yields its subject.
    pub fn validate(&self, token: &str, now: u64) -> (r: Result<String, TokenError>)
        ensures
            identity_view(r) == validation(self.secret(), token@, now),
    {
        match &self.secret {
            None => Err(TokenError::Configuration),
            Some(secret) => check_claims(decode_claims(token, secret.as_str()), now),
        }
    }
}

/// Claims that expire one hour after `issued_at` stand for their subject at
/// every time before that hour is over, thirty minutes after `issued_at`
/// among them, and are expired at every time from then on, sixty-one minutes
/// after `issued_at` among them.
pub proof fn lemma_validity_window(identity: Seq<char>, issued_at: u64, at: u64)
    requires
        issued_at + TOKEN_TTL_SECONDS <= u64::MAX,
    ensures
        ({
            let decoded = accepted(identity, (issued_at + TOKEN_TTL_SECONDS) as u64);
            &&& at < issued_at + TOKEN_TTL_SECONDS ==> checked(decoded, at) == granted(identity)
            &&& at >= issued_at + TOKEN_TTL_SECONDS ==> checked(decoded, at) == refused(
                TokenError::Expired,
            )
            &&& at == issued_at + 30 * 60 ==> checked(decoded, at) == granted(identity)
            &&& at == issued_at + 61 * 60 ==> checked(decoded, at) == refused(TokenError::Expired)
        }),
{
}

/// A token whose signature check fails is refused as `InvalidSignature` at
/// every time.
pub proof fn lemma_bad_signature_never_validates(now: u64)
    ensures
        checked(Err(DecodeError::InvalidSignature), now) == refused(TokenError::InvalidSignature),
{
}

} // verus!
