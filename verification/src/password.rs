//! Password engine: hashing, verification and strength scoring.
//!
//! Hashing and verification call argon2 behind trusted wrappers; the
//! outcome of verifying a password against a hash string is named by
//! `argon2_verify_outcome`, since it is a function of the two strings
//! alone. Strength scoring calls zxcvbn; the score of a non-blank
//! password is named by `zxcvbn_score_of`.

use vstd::prelude::*;
use crate::errors::AuthError;
use argon2::password_hash::PasswordHasher;
use argon2::password_hash::PasswordVerifier;

verus! {

/// The strength tier a password must reach: scores run from 0 to 4,
/// and anything below 3 is too weak.
pub const MIN_STRENGTH_SCORE: u8 = 3;

/// What verifying `password` against the hash string `hash` settles on:
/// `Some(true)` for a match, `Some(false)` for a definite mismatch, and
/// `None` where the hash string does not parse or the algorithm fails.
/// Parsing and re-derivation read nothing but the two strings, so the
/// outcome is a function of them alone.
pub uninterp spec fn argon2_verify_outcome(password: Seq<char>, hash: Seq<char>) -> Option<bool>;

/// The zxcvbn strength score (0 to 4) of a non-blank password given
/// the user-supplied context strings.
pub uninterp spec fn zxcvbn_score_of(password: Seq<char>, user_inputs: Seq<Seq<char>>) -> u8;

/// Relies on argon2's `PasswordHash::new` and `Argon2::verify_password`:
/// the hash string embeds algorithm, parameters and salt, so the result
/// is recomputed from the two strings alone and compared in constant
/// time. `Error::Password` is the one error that means a mismatch.
#[verifier::external_body]
fn argon2_check_raw(password: &str, hash: &str) -> (r: Option<bool>)
    ensures
        r == argon2_verify_outcome(password@, hash@),
{
    let parsed = match argon2::PasswordHash::new(hash) {
        Ok(p) => p,
        Err(_) => return None,
    };
    match argon2::Argon2::default().verify_password(password.as_bytes(), &parsed) {
        Ok(()) => Some(true),
        Err(argon2::password_hash::Error::Password) => Some(false),
        Err(_) => None,
    }
}

/// Relies on argon2's `SaltString::generate` and `hash_password`: the
/// returned PHC string embeds the fresh salt and the parameters, parses
/// back, and verifies against the password it was derived from. The
/// salt is random, so nothing more is assumed of the string itself.
#[verifier::external_body]
fn argon2_hash_raw(password: &str) -> (r: Option<String>)
    ensures
        r matches Some(h) ==> argon2_verify_outcome(password@, h@) == Some(true),
{
    let salt = argon2::password_hash::SaltString::generate(rand::thread_rng());
    match argon2::Argon2::default().hash_password(password.as_bytes(), &salt) {
        Ok(h) => Some(h.to_string()),
        Err(_) => None,
    }
}

/// Relies on zxcvbn's `zxcvbn`: a blank password is refused, and the
/// score of any other password is computed from the password and the
/// user-input strings alone. The call can also fail on a clock fault,
/// so a non-blank password is not promised a score.
#[verifier::external_body]
fn zxcvbn_raw(password: &str, user_inputs: &Vec<String>) -> (r: Option<u8>)
    ensures
        r matches Some(s) ==> s == zxcvbn_score_of(password@, user_inputs.deep_view())
            && password@.len() > 0,
        password@.len() == 0 ==> r is None,
{
    let refs: Vec<&str> = user_inputs.iter().map(|s| s.as_str()).collect();
    match zxcvbn::zxcvbn(password, &refs) {
        Ok(entropy) => Some(entropy.score()),
        Err(_) => None,
    }
}

/// A password is known to be weak when it is blank or its score falls
/// below the required tier; a scoring fault also counts as weak, but
/// cannot be told apart here.
pub open spec fn strength_known_weak(password: Seq<char>, user_inputs: Seq<Seq<char>>) -> bool {
    password.len() == 0 || zxcvbn_score_of(password, user_inputs) < MIN_STRENGTH_SCORE
}

/// Whether a scoring outcome clears the required strength tier: a
/// missing score never does.
pub fn score_passes(score: &Option<u8>) -> (r: bool)
    ensures
        r == (score matches Some(s) && s >= MIN_STRENGTH_SCORE),
{
    match score {
        Some(s) => *s >= MIN_STRENGTH_SCORE,
        None => false,
    }
}

/// Scores `user_password` with the context strings an attacker might
/// try (email, username) and compares against the required tier.
pub fn is_strong(user_password: &str, user_inputs: &Vec<String>) -> (r: bool)
    ensures
        r ==> user_password@.len() > 0
            && zxcvbn_score_of(user_password@, user_inputs.deep_view()) >= MIN_STRENGTH_SCORE,
        strength_known_weak(user_password@, user_inputs.deep_view()) ==> !r,
{
    let score = zxcvbn_raw(user_password, user_inputs);
    score_passes(&score)
}

/// Derives a salted, self-describing hash string for the password; the
/// string verifies against the password it came from. Fails only on an
/// internal algorithm error.
pub fn hash(password: &str) -> (r: Result<String, AuthError>)
    ensures
        r matches Ok(h) ==> argon2_verify_outcome(password@, h@) == Some(true),
        r matches Err(e) ==> e == AuthError::Unexpected,
{
    match argon2_hash_raw(password) {
        Some(h) => Ok(h),
        None => Err(AuthError::Unexpected),
    }
}

/// Recomputes the hash under the parameters and salt embedded in
/// `hash` and compares: `false` is a genuine mismatch, and an error
/// comes only from a corrupt hash string or an algorithm fault.
pub fn verify(password: &str, hash: &str) -> (r: Result<bool, AuthError>)
    ensures
        r == (match argon2_verify_outcome(password@, hash@) {
            Some(b) => Ok::<bool, AuthError>(b),
            None => Err::<bool, AuthError>(AuthError::Unexpected),
        }),
{
    match argon2_check_raw(password, hash) {
        Some(b) => Ok(b),
        None => Err(AuthError::Unexpected),
    }
}

} // verus!
