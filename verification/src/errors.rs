//! The closed taxonomy of authentication failures, with the status
//! code and user-facing message each one maps to at the boundary.

use vstd::prelude::*;

verus! {

/// Every way an authentication workflow can fail. `Unexpected` stands
/// for any storage or algorithm fault; its detail never reaches the
/// caller.
#[derive(PartialEq, Eq, Structural, Clone, Copy, Debug)]
pub enum AuthError {
    UserAlreadyExists,
    MissingCredential,
    WeakPassword,
    WrongLoginOrPassword,
    InvalidSession,
    Unexpected,
}

impl AuthError {
    /// The HTTP status this error maps to: bad request for rejected
    /// input, unauthorized for failed authentication, internal error
    /// for faults.
    pub fn status_code(&self) -> (r: u16)
        ensures
            r == self.spec_status_code(),
    {
        match self {
            AuthError::UserAlreadyExists => 400,
            AuthError::MissingCredential => 400,
            AuthError::WeakPassword => 400,
            AuthError::WrongLoginOrPassword => 401,
            AuthError::InvalidSession => 401,
            AuthError::Unexpected => 500,
        }
    }

    pub open spec fn spec_status_code(self) -> u16 {
        match self {
            AuthError::UserAlreadyExists => 400u16,
            AuthError::MissingCredential => 400u16,
            AuthError::WeakPassword => 400u16,
            AuthError::WrongLoginOrPassword => 401u16,
            AuthError::InvalidSession => 401u16,
            AuthError::Unexpected => 500u16,
        }
    }

    /// The user-facing message; for `Unexpected` a generic constant
    /// string that leaks nothing of the underlying cause.
    pub fn message(&self) -> (r: String)
        ensures
            r@ == self.spec_message(),
    {
        match self {
            AuthError::UserAlreadyExists => "User already exists".to_owned(),
            AuthError::MissingCredential => "Missing credential".to_owned(),
            AuthError::WeakPassword => "Password is too weak".to_owned(),
            AuthError::WrongLoginOrPassword => "Incorrect email or password".to_owned(),
            AuthError::InvalidSession => "Invalid or expired session".to_owned(),
            AuthError::Unexpected => "Unexpected server error".to_owned(),
        }
    }

    pub open spec fn spec_message(self) -> Seq<char> {
        match self {
            AuthError::UserAlreadyExists => "User already exists"@,
            AuthError::MissingCredential => "Missing credential"@,
            AuthError::WeakPassword => "Password is too weak"@,
            AuthError::WrongLoginOrPassword => "Incorrect email or password"@,
            AuthError::InvalidSession => "Invalid or expired session"@,
            AuthError::Unexpected => "Unexpected server error"@,
        }
    }
}

} // verus!
