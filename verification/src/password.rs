//! The credential hasher: salted, memory-hard password hashes.
//!
//! A hash is a self-describing string (PHC format) that names the algorithm,
//! its cost parameters, the salt and the digest. Hashing and checking are
//! `argon2`'s, under its default parameters.

use vstd::prelude::*;

verus! {

/// Why a password was not hashed or not checked.
#[derive(Debug, Clone, Copy, PartialEq, Eq, Structural)]
pub enum HashError {
    /// The stored string is not a password hash: an internal fault, not a sign
    /// of a wrong password.
    MalformedHash,
    /// The hasher did not produce a hash.
    Hashing,
}

/// The longest password that the hasher takes, in bytes of UTF-8.
pub const MAX_PASSWORD_BYTES: usize = 0xFFFF_FFFF;

/// Whether `plaintext` is short enough to be hashed.
pub open spec fn hashable(plaintext: Seq<char>) -> bool {
    vstd::utf8::encode_utf8(plaintext).len() <= MAX_PASSWORD_BYTES
}

/// The parameters of a password hash as they stand in its string: the name
/// of each, and its value where that is a decimal of 32 bits.
pub type PhcParams = Seq<(Seq<char>, Option<u32>)>;

/// The parameters that `password_hash::PasswordHash::new` reads from
/// `encoded`, in their order; `None` where it does not read `encoded` as a
/// password hash in the PHC string format.
pub uninterp spec fn phc_params(encoded: Seq<char>) -> Option<PhcParams>;

/// Whether `verify_password` of `argon2::Argon2::default()` accepts
/// `plaintext` for the password hash that `encoded` spells.
pub uninterp spec fn password_matches(plaintext: Seq<char>, encoded: Seq<char>) -> bool;

/// Whether `encoded` is a password hash in the PHC string format.
pub open spec fn phc_well_formed(encoded: Seq<char>) -> bool {
    phc_params(encoded) is Some
}

/// The name of the parameter that gives the number of lanes.
pub open spec fn lanes_name() -> Seq<char> {
    "p"@
}

/// The greatest number of lanes that can be handed to the hasher: it
/// computes eight times the number in 32 bits.
pub const MAX_LANES: u32 = u32::MAX / 8;

/// Whether a parameter can be handed to the hasher: one that gives a number
/// of lanes gives no more than `MAX_LANES`.
pub open spec fn pair_in_range(pair: (Seq<char>, Option<u32>)) -> bool {
    pair.0 == lanes_name() ==> (pair.1 matches Some(lanes) ==> lanes <= MAX_LANES)
}

/// Whether every parameter can be handed to the hasher.
pub open spec fn lanes_in_range(params: PhcParams) -> bool {
    forall|i: int| 0 <= i < params.len() ==> pair_in_range(#[trigger] params[i])
}

/// Whether `encoded` is a password hash that can be handed to the hasher.
pub open spec fn checkable(encoded: Seq<char>) -> bool {
    phc_params(encoded) matches Some(params) && lanes_in_range(params)
}

/// What checking `plaintext` against `encoded` yields: a string that is no
/// password hash is malformed; a hash with a number of lanes out of range
/// matches no password; any other hash is the hasher's to judge.
pub open spec fn verification(plaintext: Seq<char>, encoded: Seq<char>) -> Result<bool, HashError> {
    match phc_params(encoded) {
        None => Err(HashError::MalformedHash),
        Some(params) => if lanes_in_range(params) {
            Ok(password_matches(plaintext, encoded))
        } else {
            Ok(false)
        },
    }
}

/// Parameters with their names as characters.
pub open spec fn pairs_view(params: Seq<(String, Option<u32>)>) -> PhcParams {
    Seq::new(params.len(), |i: int| (params[i].0@, params[i].1))
}

/// The parameters that were read, if any, with their names as characters.
pub open spec fn params_view(params: Option<Vec<(String, Option<u32>)>>) -> Option<PhcParams> {
    match params {
        Some(pairs) => Some(pairs_view(pairs@)),
        None => None,
    }
}

/// The outcome of a check that ran and came to `matched`.
pub open spec fn decided(matched: bool) -> Result<bool, HashError> {
    Ok(matched)
}

/// Hashes `plaintext` with `hash_password` of `argon2::Argon2::default()`
/// under a salt that `SaltString::generate` draws from the operating system's
/// random source, and spells the hash as a PHC string.
///
/// Believed, not proved: a hash comes back exactly where the password is no
/// longer than `MAX_PASSWORD_BYTES`, the one limit that hashing under the
/// default parameters and a salt of the recommended length can run into; a
/// string that comes back is read again by `PasswordHash::new`, with the
/// default parameters, of which the number of lanes is 1; and
/// `verify_password` accepts `plaintext` for it, since it recomputes the
/// digest from the same password and from the algorithm, version, parameters
/// and salt that the string holds. Nothing is said of which string comes
/// back: the salt is random.
#[verifier::external_body]
fn argon2_hash(plaintext: &str) -> (r: Option<String>)
    ensures
        r is Some <==> hashable(plaintext@),
        r matches Some(encoded) ==> checkable(encoded@),
        r matches Some(encoded) ==> password_matches(plaintext@, encoded@),
{
    let salt = argon2::password_hash::SaltString::generate(
        &mut argon2::password_hash::rand_core::OsRng,
    );
    let hasher = argon2::Argon2::default();
    match argon2::PasswordHasher::hash_password(&hasher, plaintext.as_bytes(), &salt) {
        Ok(hash) => Some(hash.to_string()),
        Err(_) => None,
    }
}

/// Reads `encoded` with `PasswordHash::new` and hands out its parameters as
/// the iterator of its `params` gives them: the name of each, and its value
/// where `Value::decimal` reads it as a decimal of 32 bits.
///
/// Believed, not proved: the answer is a function of the string alone.
/// `None` stands for a string that is not a password hash.
#[verifier::external_body]
fn argon2_params(encoded: &str) -> (r: Option<Vec<(String, Option<u32>)>>)
    ensures
        params_view(r) == phc_params(encoded@),
{
    match argon2::PasswordHash::new(encoded) {
        Ok(hash) => Some(
            hash.params.iter().map(
                |(name, value)| (name.as_str().to_string(), value.decimal().ok()),
            ).collect(),
        ),
        Err(_) => None,
    }
}

/// Reads `encoded` with `PasswordHash::new` and, where that succeeds, checks
/// `plaintext` against it with `verify_password` of
/// `argon2::Argon2::default()`, which compares the digests in constant time.
///
/// A hash whose number of lanes is out of range is not admitted: the hasher
/// multiplies the number by eight in 32 bits before it tests it, and a build
/// that checks arithmetic stops there.
///
/// Believed, not proved: both answers are functions of the two strings alone.
/// `None` stands for a string that is not a password hash; any failure of
/// `verify_password` counts as "does not match".
#[verifier::external_body]
fn argon2_verify(plaintext: &str, encoded: &str) -> (r: Option<bool>)
    requires
        phc_params(encoded@) matches Some(params) ==> lanes_in_range(params),
    ensures
        r is Some == phc_well_formed(encoded@),
        r matches Some(matched) ==> matched == password_matches(plaintext@, encoded@),
{
    let hasher = argon2::Argon2::default();
    match argon2::PasswordHash::new(encoded) {
        Ok(hash) => Some(
            argon2::PasswordVerifier::verify_password(&hasher, plaintext.as_bytes(), &hash).is_ok(),
        ),
        Err(_) => None,
    }
}

/// What `hash` answers once the hasher has: the encoded hash, or `Hashing`
/// where the hasher gave none.
pub fn hashed(encoded: Option<String>) -> (r: Result<String, HashError>)
    ensures
        match encoded {
            Some(h) => r matches Ok(s) && s == h,
            None => r matches Err(HashError::Hashing),
        },
{
    match encoded {
        Some(h) => Ok(h),
        None => Err(HashError::Hashing),
    }
}

/// What `verify` answers once the check has run: whether the password
/// matched, or `MalformedHash` where the stored string could not be read.
pub fn verified(outcome: Option<bool>) -> (r: Result<bool, HashError>)
    ensures
        match outcome {
            Some(matched) => r == decided(matched),
            None => r matches Err(HashError::MalformedHash),
        },
{
    match outcome {
        Some(matched) => Ok(matched),
        None => Err(HashError::MalformedHash),
    }
}

/// Whether `name` names the number of lanes.
fn names_lanes(name: &str) -> (r: bool)
    ensures
        r == (name@ == lanes_name()),
{
    proof {
        reveal_strlit("p");
    }
    let r = name.unicode_len() == 1 && name.get_char(0) == 'p';
    assert(r == (name@ =~= lanes_name()));
    r
}

/// Whether every parameter of a hash can be handed to the hasher.
pub fn lanes_fit(params: &Vec<(String, Option<u32>)>) -> (r: bool)
    ensures
        r == lanes_in_range(pairs_view(params@)),
{
    let mut i: usize = 0;
    while i < params.len()
        invariant
            i <= params@.len(),
            forall|k: int| 0 <= k < i ==> pair_in_range(#[trigger] pairs_view(params@)[k]),
        decreases params@.len() - i,
    {
        let pair = &params[i];
        if names_lanes(pair.0.as_str()) {
            match pair.1 {
                Some(lanes) => {
                    if lanes > MAX_LANES {
                        assert(!pair_in_range(pairs_view(params@)[i as int]));
                        return false;
                    }
                },
                None => {},
            }
        }
        i = i + 1;
    }
    true
}

/// Hashes `plaintext` under a fresh random salt.
///
/// The call succeeds exactly where `plaintext` is no longer than
/// `MAX_PASSWORD_BYTES` in UTF-8, and fails with `Hashing` otherwise. The
/// encoded hash that comes back verifies against `plaintext`.
pub fn hash(plaintext: &str) -> (r: Result<String, HashError>)
    ensures
        r is Ok <==> hashable(plaintext@),
        match r {
            Ok(encoded) => verification(plaintext@, encoded@) == decided(true),
            Err(e) => e == HashError::Hashing,
        },
{
    hashed(argon2_hash(plaintext))
}

/// Checks `plaintext` against a stored hash: `Ok(true)` where it matches,
/// `Ok(false)` where it does not, and `MalformedHash` exactly where the stored
/// string is not a password hash. A hash whose number of lanes is out of
/// range never reaches the hasher, and matches no password.
pub fn verify(plaintext: &str, encoded: &str) -> (r: Result<bool, HashError>)
    ensures
        r == verification(plaintext@, encoded@),
{
    match argon2_params(encoded) {
        None => Err(HashError::MalformedHash),
        Some(params) => {
            if lanes_fit(&params) {
                verified(argon2_verify(plaintext, encoded))
            } else {
                Ok(false)
            }
        },
    }
}

} // verus!
