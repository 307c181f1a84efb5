//! Credential-and-session authentication core.
//!
//! The library registers users with email/password credentials,
//! authenticates returning users, and issues, validates and revokes
//! opaque session tokens. The credential store is an in-memory model
//! with explicit invariants; password hashing, strength scoring and
//! token handling call outside crates through a small set of trusted
//! wrappers.

use vstd::prelude::*;
use vstd::string::StringExecFns;

pub mod errors;
pub mod laws;
pub mod password;
pub mod session;
pub mod store;
pub mod token;

verus! {

/// What `str::to_lowercase` returns: a function of the characters
/// alone.
pub uninterp spec fn lower_of(s: Seq<char>) -> Seq<char>;

/// Relies on `str::to_lowercase`: the result depends on the characters
/// alone.
#[verifier::external_body]
fn lowercase(s: &str) -> (r: String)
    ensures
        r@ == lower_of(s@),
{
    s.to_lowercase()
}

/// Deployment mode selected by process-wide configuration; it only
/// decides whether schema migrations run at startup, outside this core.
#[derive(PartialEq, Eq, Structural, Clone, Copy, Debug)]
pub enum Environment {
    Development,
    Production,
}

impl Environment {
    /// Parses a deployment-mode name, ignoring letter case.
    pub fn try_from(value: &str) -> (r: Result<Environment, String>)
        ensures
            (r == Ok::<Environment, String>(Environment::Development)) <==> (
                lower_of(value@) == "development"@ || lower_of(value@) == "dev"@),
            (r == Ok::<Environment, String>(Environment::Production)) <==> (
                lower_of(value@) == "production"@ || lower_of(value@) == "prod"@),
            r matches Err(m) ==> m@ == lower_of(value@)
                + " is not supported environment. Use either `local` or `production`"@,
    {
        proof {
            reveal_strlit("development");
            reveal_strlit("dev");
            reveal_strlit("production");
            reveal_strlit("prod");
            // The keywords have pairwise different lengths, so their
            // views are pairwise distinct.
            assert("development"@.len() == 11);
            assert("dev"@.len() == 3);
            assert("production"@.len() == 10);
            assert("prod"@.len() == 4);
        }
        let lower = lowercase(value);
        if lower == "development".to_owned() || lower == "dev".to_owned() {
            Ok(Environment::Development)
        } else if lower == "production".to_owned() || lower == "prod".to_owned() {
            Ok(Environment::Production)
        } else {
            Err(lower.concat(" is not supported environment. Use either `local` or `production`"))
        }
    }
}

} // verus!
