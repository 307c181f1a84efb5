//! Laws of the authentication core, proved over the workflow
//! contracts alone.

use vstd::prelude::*;
use crate::errors::AuthError;
use crate::password::argon2_verify_outcome;
use crate::session::guard_decision;
use crate::store::{login_post, logout_post, register_post, AuthSuccess, Store};
use crate::token::uuid_of_string;

verus! {

/// Registering twice with the same email always fails the second
/// attempt with `UserAlreadyExists` and leaves the store unchanged,
/// whatever the second attempt's username and password.
pub proof fn lemma_duplicate_registration_rejected(
    s0: Store,
    s1: Store,
    s2: Store,
    username1: Seq<char>,
    password1: Seq<char>,
    email: Seq<char>,
    a: AuthSuccess,
    username2: Seq<char>,
    password2: Seq<char>,
    r2: Result<AuthSuccess, AuthError>,
)
    requires
        register_post(s0, s1, username1, email, password1, Ok(a)),
        register_post(s1, s2, username2, email, password2, r2),
    ensures
        r2 == Err::<AuthSuccess, AuthError>(AuthError::UserAlreadyExists),
        s2 == s1,
{
}

/// Login with an unknown email and login with a known email but a
/// wrong password settle on the very same outcome — the store
/// unchanged and the one indistinguishable error.
pub proof fn lemma_login_indistinguishable(
    s: Store,
    post1: Store,
    post2: Store,
    email1: Seq<char>,
    password1: Seq<char>,
    email2: Seq<char>,
    password2: Seq<char>,
    r1: Result<AuthSuccess, AuthError>,
    r2: Result<AuthSuccess, AuthError>,
)
    requires
        login_post(s, post1, email1, password1, r1),
        login_post(s, post2, email2, password2, r2),
        !s.has_email(email1),
        s.has_email(email2),
        argon2_verify_outcome(password2, s.cred_hash(email2)) == Some(false),
    ensures
        r1 == Err::<AuthSuccess, AuthError>(AuthError::WrongLoginOrPassword),
        r2 == r1,
        post1 == s,
        post2 == s,
{
}

/// After a successful registration, the returned token — and any
/// cookie value that parses to the new session's identifier —
/// resolves through the session guard to the new user.
pub proof fn lemma_registered_session_resolves(
    pre: Store,
    post: Store,
    username: Seq<char>,
    email: Seq<char>,
    password: Seq<char>,
    a: AuthSuccess,
    cookie: Seq<char>,
)
    requires
        register_post(pre, post, username, email, password, Ok(a)),
        uuid_of_string(cookie) == Some(a.session_id),
    ensures
        guard_decision(post, Some(cookie)) == Ok::<u128, AuthError>(a.user_id),
        guard_decision(post, Some(a.token@)) == Ok::<u128, AuthError>(a.user_id),
{
}

/// After a successful login, the returned token — and any cookie
/// value that parses to the new session's identifier — resolves
/// through the session guard to the credential's user.
pub proof fn lemma_logged_in_session_resolves(
    pre: Store,
    post: Store,
    email: Seq<char>,
    password: Seq<char>,
    a: AuthSuccess,
    cookie: Seq<char>,
)
    requires
        login_post(pre, post, email, password, Ok(a)),
        uuid_of_string(cookie) == Some(a.session_id),
    ensures
        guard_decision(post, Some(cookie)) == Ok::<u128, AuthError>(a.user_id),
        guard_decision(post, Some(a.token@)) == Ok::<u128, AuthError>(a.user_id),
{
}

/// After a logout with a well-formed cookie value, the session guard
/// rejects that same value with `InvalidSession`.
pub proof fn lemma_logout_invalidates(
    pre: Store,
    post: Store,
    cookie: Seq<char>,
    r: Result<bool, AuthError>,
)
    requires
        logout_post(pre, post, Some(cookie), r),
        uuid_of_string(cookie) is Some,
    ensures
        r == Ok::<bool, AuthError>(true),
        guard_decision(post, Some(cookie)) == Err::<u128, AuthError>(AuthError::InvalidSession),
{
}

/// A hash string the password engine returned for a password always
/// verifies against that password: the engine only hands out strings
/// whose verification outcome for the password is `Some(true)`, and
/// `verify` maps that outcome to `Ok(true)` exactly.
pub proof fn lemma_hash_verifies(password: Seq<char>, hashed: Seq<char>)
    requires
        argon2_verify_outcome(password, hashed) == Some(true),
    ensures
        (match argon2_verify_outcome(password, hashed) {
            Some(b) => Ok::<bool, AuthError>(b),
            None => Err::<bool, AuthError>(AuthError::Unexpected),
        }) == Ok::<bool, AuthError>(true),
{
}

/// After a successful registration, a login with the registered email
/// and password is never turned away as wrong credentials: the stored
/// hash verifies against that password, so only an internal fault can
/// keep the login from succeeding.
pub proof fn lemma_registered_password_logs_in(
    s0: Store,
    s1: Store,
    s2: Store,
    username: Seq<char>,
    email: Seq<char>,
    password: Seq<char>,
    a: AuthSuccess,
    r2: Result<AuthSuccess, AuthError>,
)
    requires
        register_post(s0, s1, username, email, password, Ok(a)),
        login_post(s1, s2, email, password, r2),
    ensures
        r2 != Err::<AuthSuccess, AuthError>(AuthError::WrongLoginOrPassword),
        r2 matches Ok(b) ==> b.user_id == a.user_id,
{
}

/// Logout with no cookie present succeeds as a no-op: it never
/// errors and the store does not change.
pub proof fn lemma_logout_without_cookie(pre: Store, post: Store, r: Result<bool, AuthError>)
    requires
        logout_post(pre, post, None, r),
    ensures
        r == Ok::<bool, AuthError>(false),
        post == pre,
{
}

} // verus!
