//! Session guard: the authentication gate every protected route runs
//! before its handler logic.

use vstd::prelude::*;
use crate::errors::AuthError;
use crate::store::{opt_str_view, Store};
use crate::token;
use crate::token::uuid_of_string;

verus! {

/// An authenticated identity, resolved from a session cookie.
pub struct Session {
    pub user_id: u128,
}

/// What the guard decides for a given store and cookie value: the
/// session's user where the cookie is present, well formed and names
/// an active session; `InvalidSession` otherwise. Pure reads — the
/// guard never creates or extends a session.
pub open spec fn guard_decision(s: Store, token_value: Option<Seq<char>>) -> Result<
    u128,
    AuthError,
> {
    match token_value {
        None => Err(AuthError::InvalidSession),
        Some(t) => match uuid_of_string(t) {
            None => Err(AuthError::InvalidSession),
            Some(sid) => if s.has_session(sid) {
                Ok(s.session_user(sid))
            } else {
                Err(AuthError::InvalidSession)
            },
        },
    }
}

/// The session cookie's fixed name.
pub fn session_cookie_name() -> (r: &'static str)
    ensures
        r@ == "session"@,
{
    "session"
}

impl Session {
    /// Resolves the session cookie's value to the identity it
    /// authenticates, or rejects it: absent, malformed and stale
    /// cookies all read as `InvalidSession`.
    pub fn from_token(store: &Store, token_value: Option<&str>) -> (r: Result<
        Session,
        AuthError,
    >)
        requires
            store.wf(),
        ensures
            (match r {
                Ok(s) => guard_decision(*store, opt_str_view(token_value)) == Ok::<
                    u128,
                    AuthError,
                >(s.user_id),
                Err(e) => guard_decision(*store, opt_str_view(token_value)) == Err::<
                    u128,
                    AuthError,
                >(e),
            }),
    {
        let t = match token_value {
            None => {
                return Err(AuthError::InvalidSession);
            },
            Some(t) => t,
        };
        let sid = match token::parse_id_raw(t) {
            None => {
                return Err(AuthError::InvalidSession);
            },
            Some(sid) => sid,
        };
        match store.session_lookup(sid) {
            Some(user_id) => Ok(Session { user_id }),
            None => Err(AuthError::InvalidSession),
        }
    }
}

} // verus!
