use web_api::entities::claims::Claims;
use web_api::token::{
    check_claims, issued, DecodeError, TokenError, TokenService, TOKEN_TTL_SECONDS,
};

const T0: u64 = 1_700_000_000;

fn service() -> TokenService {
    TokenService::new(Some("a-server-secret".to_string()))
}

#[test]
fn the_lifetime_is_one_hour() {
    assert_eq!(TOKEN_TTL_SECONDS, 3600);
}

#[test]
fn with_a_secret_a_token_is_always_issued() {
    let long = "x".repeat(100_000);
    for secret in ["", "s", "a-server-secret", long.as_str(), "clave \u{f1} \u{1f511}"] {
        let tokens = TokenService::new(Some(secret.to_string()));
        for identity in ["", "1", long.as_str(), "\u{0}\u{1f600}\"\\"] {
            for now in [0, T0, u64::MAX - 3600] {
                let token = tokens.issue(identity, now).unwrap();
                assert_eq!(tokens.validate(&token, now), Ok(identity.to_string()));
            }
        }
    }
}

#[test]
fn a_token_validates_half_an_hour_after_issue() {
    let tokens = service();
    let token = tokens.issue("17", T0).unwrap();
    assert_eq!(tokens.validate(&token, T0 + 30 * 60), Ok("17".to_string()));
}

#[test]
fn a_token_is_expired_sixty_one_minutes_after_issue() {
    let tokens = service();
    let token = tokens.issue("17", T0).unwrap();
    assert_eq!(tokens.validate(&token, T0 + 61 * 60), Err(TokenError::Expired));
}

#[test]
fn a_token_expires_exactly_at_its_expiry() {
    let tokens = service();
    let token = tokens.issue("17", T0).unwrap();
    assert_eq!(tokens.validate(&token, T0), Ok("17".to_string()));
    assert_eq!(tokens.validate(&token, T0 + 3599), Ok("17".to_string()));
    assert_eq!(tokens.validate(&token, T0 + 3600), Err(TokenError::Expired));
    assert_eq!(tokens.validate(&token, T0 + 3601), Err(TokenError::Expired));
    assert_eq!(tokens.validate(&token, u64::MAX), Err(TokenError::Expired));
}

#[test]
fn a_token_validates_before_its_issue_time() {
    let tokens = service();
    let token = tokens.issue("17", T0).unwrap();
    assert_eq!(tokens.validate(&token, 0), Ok("17".to_string()));
}

#[test]
fn a_token_is_three_segments_and_is_not_the_identity() {
    let token = service().issue("alice", T0).unwrap();
    assert_ne!(token, "alice");
    assert_eq!(token.split('.').count(), 3);
    assert!(token.split('.').all(|part| !part.is_empty()));
}

#[test]
fn issuing_is_a_function_of_identity_time_and_secret() {
    let tokens = service();
    assert_eq!(tokens.issue("1", T0).unwrap(), tokens.issue("1", T0).unwrap());
    assert_ne!(tokens.issue("1", T0).unwrap(), tokens.issue("2", T0).unwrap());
    assert_ne!(tokens.issue("1", T0).unwrap(), tokens.issue("1", T0 + 1).unwrap());
    let other = TokenService::new(Some("another-secret".to_string()));
    assert_ne!(tokens.issue("1", T0).unwrap(), other.issue("1", T0).unwrap());
}

#[test]
fn identities_of_any_text_survive() {
    let tokens = service();
    for identity in ["", "0", "18446744073709551615", "no id", "caf\u{e9} \"q\" \\ \n", "\u{1f600}"] {
        let token = tokens.issue(identity, T0).unwrap();
        assert_eq!(tokens.validate(&token, T0 + 1), Ok(identity.to_string()));
    }
}

#[test]
fn the_latest_issue_time_is_served() {
    let tokens = service();
    let now = u64::MAX - 3600;
    let token = tokens.issue("5", now).unwrap();
    assert_eq!(tokens.validate(&token, u64::MAX - 1), Ok("5".to_string()));
    assert_eq!(tokens.validate(&token, u64::MAX), Err(TokenError::Expired));
}

fn replace_char(s: &str, at: usize) -> String {
    let mut out = String::new();
    for (i, c) in s.chars().enumerate() {
        if i == at {
            out.push(if c == 'A' { 'B' } else { 'A' });
        } else {
            out.push(c);
        }
    }
    out
}

#[test]
fn tampering_any_byte_of_the_signature_fails_at_every_time() {
    let tokens = service();
    let token = tokens.issue("17", T0).unwrap();
    let start = token.rfind('.').unwrap() + 1;
    assert!(token.len() - start >= 43);
    for at in start..token.len() {
        let forged = replace_char(&token, at);
        assert_ne!(forged, token);
        for now in [0, T0, T0 + 1800, T0 + 3600, T0 + 3660, u64::MAX] {
            assert_eq!(tokens.validate(&forged, now), Err(TokenError::InvalidSignature));
        }
    }
}

#[test]
fn tampering_the_claims_fails_the_signature() {
    let tokens = service();
    let token = tokens.issue("17", T0).unwrap();
    let first = token.find('.').unwrap();
    let forged = replace_char(&token, first + 3);
    assert!(tokens.validate(&forged, T0).is_err());
    assert_ne!(tokens.validate(&forged, T0), Err(TokenError::Expired));
}

#[test]
fn a_token_of_another_secret_fails_the_signature() {
    let token = TokenService::new(Some("another-secret".to_string())).issue("17", T0).unwrap();
    assert_eq!(service().validate(&token, T0), Err(TokenError::InvalidSignature));
    assert_eq!(service().validate(&token, T0 + 7200), Err(TokenError::InvalidSignature));
}

#[test]
fn what_is_no_token_is_malformed() {
    let tokens = service();
    assert_eq!(tokens.validate("", T0), Err(TokenError::Malformed));
    assert_eq!(tokens.validate("17", T0), Err(TokenError::Malformed));
    assert_eq!(tokens.validate("a.b", T0), Err(TokenError::Malformed));
    assert_eq!(tokens.validate("a.b.c", T0), Err(TokenError::Malformed));
    assert_eq!(tokens.validate("a.b.c.d", T0), Err(TokenError::Malformed));
    assert_eq!(tokens.validate("not a token", T0), Err(TokenError::Malformed));
}

#[test]
fn a_signed_token_with_other_claims_is_malformed() {
    // {"alg":"HS256","typ":"JWT"} . {"sub":17,"exp":9999999999} signed with
    // the secret of `service`: the subject is a number, not text.
    let claims = serde_json::Map::from_iter([
        ("sub".to_string(), serde_json::Value::from(17)),
        ("exp".to_string(), serde_json::Value::from(9_999_999_999u64)),
    ]);
    let token = jsonwebtoken::encode(
        &jsonwebtoken::Header::default(),
        &claims,
        &jsonwebtoken::EncodingKey::from_secret("a-server-secret".as_bytes()),
    )
    .unwrap();
    assert_eq!(service().validate(&token, T0), Err(TokenError::Malformed));
}

#[test]
fn a_signed_token_without_expiry_is_malformed() {
    let claims = serde_json::Map::from_iter([("sub".to_string(), serde_json::Value::from("17"))]);
    let token = jsonwebtoken::encode(
        &jsonwebtoken::Header::default(),
        &claims,
        &jsonwebtoken::EncodingKey::from_secret("a-server-secret".as_bytes()),
    )
    .unwrap();
    assert_eq!(service().validate(&token, T0), Err(TokenError::Malformed));
}

#[test]
fn a_token_signed_elsewhere_with_the_same_claims_is_accepted() {
    let claims = serde_json::Map::from_iter([
        ("sub".to_string(), serde_json::Value::from("17")),
        ("exp".to_string(), serde_json::Value::from(T0 + 10)),
    ]);
    let token = jsonwebtoken::encode(
        &jsonwebtoken::Header::default(),
        &claims,
        &jsonwebtoken::EncodingKey::from_secret("a-server-secret".as_bytes()),
    )
    .unwrap();
    assert_eq!(service().validate(&token, T0 + 9), Ok("17".to_string()));
    assert_eq!(service().validate(&token, T0 + 10), Err(TokenError::Expired));
}

#[test]
fn the_expiry_is_judged_against_the_given_time_not_the_clock() {
    // Issued in 1970: long expired by the clock, valid by the time given.
    let tokens = service();
    let token = tokens.issue("17", 100).unwrap();
    assert_eq!(tokens.validate(&token, 200), Ok("17".to_string()));
    assert_eq!(tokens.validate(&token, 3700), Err(TokenError::Expired));
}

#[test]
fn without_a_secret_every_call_is_a_configuration_error() {
    let tokens = TokenService::new(None);
    assert_eq!(tokens.issue("17", T0), Err(TokenError::Configuration));
    assert_eq!(tokens.validate("a.b.c", T0), Err(TokenError::Configuration));
    let token = service().issue("17", T0).unwrap();
    assert_eq!(tokens.validate(&token, T0), Err(TokenError::Configuration));
}

#[test]
fn the_validity_rule_on_decoded_claims() {
    let claims = |exp: u64| Ok(Claims { sub: "9".to_string(), exp });
    assert_eq!(check_claims(claims(10), 9), Ok("9".to_string()));
    assert_eq!(check_claims(claims(10), 10), Err(TokenError::Expired));
    assert_eq!(check_claims(claims(10), 11), Err(TokenError::Expired));
    assert_eq!(check_claims(claims(0), 0), Err(TokenError::Expired));
    assert_eq!(check_claims(claims(u64::MAX), u64::MAX - 1), Ok("9".to_string()));
    assert_eq!(check_claims(Err(DecodeError::InvalidSignature), 0), Err(TokenError::InvalidSignature));
    assert_eq!(check_claims(Err(DecodeError::InvalidSignature), u64::MAX), Err(TokenError::InvalidSignature));
    assert_eq!(check_claims(Err(DecodeError::Malformed), 0), Err(TokenError::Malformed));
}

#[test]
fn the_signer_answer_is_passed_on() {
    assert_eq!(issued(Some("t".to_string())), Ok("t".to_string()));
    assert_eq!(issued(None), Err(TokenError::Encoding));
}

#[test]
fn an_issued_token_carries_the_subject_and_the_expiry() {
    let token = service().issue("17", T0).unwrap();
    let mut validation = jsonwebtoken::Validation::default();
    validation.validate_exp = false;
    let data = jsonwebtoken::decode::<serde_json::Value>(
        &token,
        &jsonwebtoken::DecodingKey::from_secret("a-server-secret".as_bytes()),
        &validation,
    )
    .unwrap();
    assert_eq!(data.header.alg, jsonwebtoken::Algorithm::HS256);
    assert_eq!(data.claims["sub"], serde_json::Value::from("17"));
    assert_eq!(data.claims["exp"], serde_json::Value::from(T0 + 3600));
    assert_eq!(data.claims.as_object().unwrap().len(), 2);
}
