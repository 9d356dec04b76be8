use web_api::password::{hash, hashed, lanes_fit, verified, verify, HashError, MAX_LANES};

#[test]
fn a_hash_verifies_against_its_password() {
    let encoded = hash("correct horse battery staple").unwrap();
    assert_eq!(verify("correct horse battery staple", &encoded), Ok(true));
}

#[test]
fn a_hash_does_not_verify_against_another_password() {
    let encoded = hash("hunter2").unwrap();
    assert_eq!(verify("hunter3", &encoded), Ok(false));
    assert_eq!(verify("", &encoded), Ok(false));
    assert_eq!(verify("hunter2 ", &encoded), Ok(false));
}

#[test]
fn two_hashes_of_one_password_differ_and_both_verify() {
    let first = hash("s3cret").unwrap();
    let second = hash("s3cret").unwrap();
    assert_ne!(first, second);
    assert_eq!(verify("s3cret", &first), Ok(true));
    assert_eq!(verify("s3cret", &second), Ok(true));
}

#[test]
fn a_hash_is_self_describing_and_is_not_the_password() {
    let encoded = hash("plain").unwrap();
    assert_ne!(encoded, "plain");
    assert!(!encoded.contains("plain"));
    assert!(encoded.starts_with("$argon2id$v=19$m="));
    assert_eq!(encoded.matches('$').count(), 5);
}

#[test]
fn passwords_of_any_ordinary_length_are_hashed() {
    let long = "p\u{e4}ss".repeat(20_000);
    for plaintext in ["", "a", "correct horse", long.as_str()] {
        let encoded = hash(plaintext).unwrap();
        assert_eq!(verify(plaintext, &encoded), Ok(true));
    }
    assert_eq!(web_api::password::MAX_PASSWORD_BYTES, 4_294_967_295);
}

#[test]
fn the_empty_password_can_be_hashed() {
    let encoded = hash("").unwrap();
    assert_eq!(verify("", &encoded), Ok(true));
    assert_eq!(verify("x", &encoded), Ok(false));
}

#[test]
fn a_stored_string_that_is_no_hash_is_malformed() {
    assert_eq!(verify("pw", ""), Err(HashError::MalformedHash));
    assert_eq!(verify("pw", "pw"), Err(HashError::MalformedHash));
    assert_eq!(verify("pw", "not a hash"), Err(HashError::MalformedHash));
    assert_eq!(verify("pw", "$argon2id$v=19$m=19456,t=2,p=1$@@@$@@@"), Err(HashError::MalformedHash));
}

#[test]
fn a_known_hash_verifies() {
    // The hash of "password" under the salt "somesalt", from the reference
    // vectors of the algorithm.
    let encoded = "$argon2id$v=19$m=65536,t=2,p=1$c29tZXNhbHQ$CTFhFdXPJO1aFaMaO6Mm5c8y7cJHAph8ArZWb2GRPPc";
    assert_eq!(verify("password", encoded), Ok(true));
    assert_eq!(verify("Password", encoded), Ok(false));
}

#[test]
fn a_well_formed_hash_of_another_algorithm_does_not_match() {
    let encoded = "$scrypt$ln=16,r=8,p=1$aM15713r3Xsvxbi31lqr1Q$nFNh2CVHVjNldFVKDHDlm4CbdRSCdEBsjjJxD+iCs5E";
    assert_eq!(verify("pleaseletmein", encoded), Ok(false));
}

#[test]
fn the_hasher_answer_is_passed_on() {
    assert_eq!(hashed(Some("$h".to_string())), Ok("$h".to_string()));
    assert_eq!(hashed(None), Err(HashError::Hashing));
    assert_eq!(verified(Some(true)), Ok(true));
    assert_eq!(verified(Some(false)), Ok(false));
    assert_eq!(verified(None), Err(HashError::MalformedHash));
}

fn known_hash_with(params: &str) -> String {
    format!("$argon2id$v=19${}$c29tZXNhbHQ$CTFhFdXPJO1aFaMaO6Mm5c8y7cJHAph8ArZWb2GRPPc", params)
}

#[test]
fn the_greatest_number_of_lanes() {
    assert_eq!(MAX_LANES, 536_870_911);
    assert_eq!(u64::from(MAX_LANES) * 8 + 7, u64::from(u32::MAX));
}

#[test]
fn a_hash_with_lanes_out_of_range_matches_no_password() {
    for lanes in ["536870912", "536870913", "1073741824", "4294967295"] {
        let encoded = known_hash_with(&format!("m=65536,t=2,p={}", lanes));
        assert_eq!(verify("password", &encoded), Ok(false), "p={}", lanes);
        assert_eq!(verify("", &encoded), Ok(false));
    }
}

#[test]
fn a_hash_with_lanes_in_range_is_the_hashers_to_judge() {
    assert_eq!(verify("password", &known_hash_with("m=65536,t=2,p=1")), Ok(true));
    for lanes in ["536870911", "16777216", "16777215", "0", "2"] {
        let encoded = known_hash_with(&format!("m=65536,t=2,p={}", lanes));
        assert_eq!(verify("password", &encoded), Ok(false), "p={}", lanes);
    }
}

#[test]
fn one_parameter_out_of_range_is_enough() {
    assert_eq!(verify("password", &known_hash_with("m=65536,t=2,p=1,p=536870912")), Ok(false));
    assert_eq!(verify("password", &known_hash_with("m=65536,t=2,p=536870912,p=1")), Ok(false));
    assert_eq!(verify("password", &known_hash_with("p=536870912")), Ok(false));
}

#[test]
fn a_number_of_lanes_that_is_no_decimal_is_the_hashers_to_refuse() {
    for lanes in ["4294967296", "01", "abc", "1.5", "-1"] {
        let encoded = known_hash_with(&format!("m=65536,t=2,p={}", lanes));
        assert_eq!(verify("password", &encoded), Ok(false), "p={}", lanes);
    }
}

#[test]
fn only_the_lanes_are_tested() {
    let pair = |name: &str, value: Option<u32>| (name.to_string(), value);
    assert!(lanes_fit(&vec![]));
    assert!(lanes_fit(&vec![pair("m", Some(u32::MAX)), pair("t", Some(u32::MAX))]));
    assert!(lanes_fit(&vec![pair("p", None), pair("p", Some(0)), pair("p", Some(1))]));
    assert!(lanes_fit(&vec![pair("p", Some(536_870_911))]));
    assert!(!lanes_fit(&vec![pair("p", Some(536_870_912))]));
    assert!(!lanes_fit(&vec![pair("p", Some(u32::MAX))]));
    assert!(!lanes_fit(&vec![pair("m", Some(1)), pair("p", Some(1)), pair("p", Some(u32::MAX))]));
    assert!(!lanes_fit(&vec![pair("p", Some(u32::MAX)), pair("p", Some(1))]));
    assert!(lanes_fit(&vec![pair("P", Some(u32::MAX)), pair("pp", Some(u32::MAX)), pair("", Some(u32::MAX))]));
    assert!(lanes_fit(&vec![pair("keyid", None), pair("data", None)]));
}
