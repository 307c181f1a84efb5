//! Credential store and authentication workflows.
//!
//! The store holds the three entities — users, credentials, sessions —
//! with their invariants: unique user identifiers, unique emails,
//! exactly one credential per user, unique session identifiers, and
//! referential integrity of every credential and session to its user.
//! `register`, `login` and `logout` are the atomic workflows over it:
//! each either completes in full or leaves the store unchanged.

use vstd::prelude::*;
use crate::errors::AuthError;
use crate::password;
use crate::password::{argon2_verify_outcome, strength_known_weak, zxcvbn_score_of,
    MIN_STRENGTH_SCORE};
use crate::token;
use crate::token::uuid_of_string;

verus! {

struct UserRow {
    id: u128,
    username: String,
}

struct CredentialRow {
    email: String,
    password_hash: String,
    user_id: u128,
}

struct SessionRow {
    id: u128,
    user_id: u128,
}

/// What a successful register or login hands back: the authenticated
/// user, the fresh session identifier, and the opaque cookie value
/// that resolves to it.
#[derive(Debug, PartialEq, Eq)]
pub struct AuthSuccess {
    pub user_id: u128,
    pub session_id: u128,
    pub token: String,
}

/// The durable state: users, credentials and sessions.
pub struct Store {
    users: Vec<UserRow>,
    credentials: Vec<CredentialRow>,
    sessions: Vec<SessionRow>,
}

impl Store {
    /// Whether a user with this identifier exists.
    pub closed spec fn has_user(self, uid: u128) -> bool {
        exists|i: int| 0 <= i < self.users@.len() && self.users@[i].id == uid
    }

    closed spec fn user_index(self, uid: u128) -> int {
        choose|i: int| 0 <= i < self.users@.len() && self.users@[i].id == uid
    }

    /// The display name of an existing user.
    pub closed spec fn username_of(self, uid: u128) -> Seq<char> {
        self.users@[self.user_index(uid)].username@
    }

    /// Whether a credential with this email exists.
    pub closed spec fn has_email(self, email: Seq<char>) -> bool {
        exists|i: int| 0 <= i < self.credentials@.len() && self.credentials@[i].email@ == email
    }

    closed spec fn cred_index(self, email: Seq<char>) -> int {
        choose|i: int| 0 <= i < self.credentials@.len() && self.credentials@[i].email@ == email
    }

    /// The user an existing credential belongs to.
    pub closed spec fn cred_user(self, email: Seq<char>) -> u128 {
        self.credentials@[self.cred_index(email)].user_id
    }

    /// The password hash string an existing credential stores.
    pub closed spec fn cred_hash(self, email: Seq<char>) -> Seq<char> {
        self.credentials@[self.cred_index(email)].password_hash@
    }

    /// Whether a session with this identifier is currently active.
    pub closed spec fn has_session(self, sid: u128) -> bool {
        exists|i: int| 0 <= i < self.sessions@.len() && self.sessions@[i].id == sid
    }

    closed spec fn session_index(self, sid: u128) -> int {
        choose|i: int| 0 <= i < self.sessions@.len() && self.sessions@[i].id == sid
    }

    /// The user an existing session authenticates.
    pub closed spec fn session_user(self, sid: u128) -> u128 {
        self.sessions@[self.session_index(sid)].user_id
    }

    /// The store's invariants: unique user identifiers, unique emails,
    /// one credential per user, unique session identifiers, and every
    /// credential and session tied to an existing user.
    pub closed spec fn wf(self) -> bool {
        &&& (forall|i: int, j: int| 0 <= i < j < self.users@.len()
            ==> self.users@[i].id != self.users@[j].id)
        &&& (forall|i: int, j: int| 0 <= i < j < self.credentials@.len()
            ==> self.credentials@[i].email@ != self.credentials@[j].email@)
        &&& (forall|i: int, j: int| 0 <= i < j < self.credentials@.len()
            ==> self.credentials@[i].user_id != self.credentials@[j].user_id)
        &&& (forall|i: int| 0 <= i < self.credentials@.len()
            ==> self.has_user(self.credentials@[i].user_id))
        &&& (forall|i: int, j: int| 0 <= i < j < self.sessions@.len()
            ==> self.sessions@[i].id != self.sessions@[j].id)
        &&& (forall|i: int| 0 <= i < self.sessions@.len()
            ==> self.has_user(self.sessions@[i].user_id))
    }

    proof fn lemma_user_at(self, i: int)
        requires
            self.wf(),
            0 <= i < self.users@.len(),
        ensures
            self.has_user(self.users@[i].id),
            self.user_index(self.users@[i].id) == i,
    {
        let uid = self.users@[i].id;
        assert(self.has_user(uid));
        let j = self.user_index(uid);
        assert(0 <= j < self.users@.len() && self.users@[j].id == uid);
    }

    proof fn lemma_cred_at(self, i: int)
        requires
            self.wf(),
            0 <= i < self.credentials@.len(),
        ensures
            self.has_email(self.credentials@[i].email@),
            self.cred_index(self.credentials@[i].email@) == i,
    {
        let e = self.credentials@[i].email@;
        assert(self.has_email(e));
        let j = self.cred_index(e);
        assert(0 <= j < self.credentials@.len() && self.credentials@[j].email@ == e);
    }

    proof fn lemma_session_at(self, i: int)
        requires
            self.wf(),
            0 <= i < self.sessions@.len(),
        ensures
            self.has_session(self.sessions@[i].id),
            self.session_index(self.sessions@[i].id) == i,
    {
        let sid = self.sessions@[i].id;
        assert(self.has_session(sid));
        let j = self.session_index(sid);
        assert(0 <= j < self.sessions@.len() && self.sessions@[j].id == sid);
    }

    /// An empty store: no users, no credentials, no sessions.
    pub fn new() -> (r: Store)
        ensures
            r.wf(),
            forall|uid: u128| !r.has_user(uid),
            forall|e: Seq<char>| !r.has_email(e),
            forall|sid: u128| !r.has_session(sid),
    {
        Store { users: Vec::new(), credentials: Vec::new(), sessions: Vec::new() }
    }

    fn find_credential(&self, email: &String) -> (r: Option<usize>)
        ensures
            r matches Some(i) ==> i < self.credentials@.len()
                && self.credentials@[i as int].email@ == email@,
            r is Some <==> self.has_email(email@),
    {
        let mut i: usize = 0;
        while i < self.credentials.len()
            invariant
                i <= self.credentials@.len(),
                forall|j: int| 0 <= j < i ==> self.credentials@[j].email@ != email@,
            decreases self.credentials@.len() - i,
        {
            if self.credentials[i].email == *email {
                return Some(i);
            }
            i += 1;
        }
        None
    }

    fn has_user_exec(&self, uid: u128) -> (r: bool)
        ensures
            r == self.has_user(uid),
    {
        let mut i: usize = 0;
        while i < self.users.len()
            invariant
                i <= self.users@.len(),
                forall|j: int| 0 <= j < i ==> self.users@[j].id != uid,
            decreases self.users@.len() - i,
        {
            if self.users[i].id == uid {
                return true;
            }
            i += 1;
        }
        false
    }

    fn find_session(&self, sid: u128) -> (r: Option<usize>)
        ensures
            r matches Some(i) ==> i < self.sessions@.len()
                && self.sessions@[i as int].id == sid,
            r is Some <==> self.has_session(sid),
    {
        let mut i: usize = 0;
        while i < self.sessions.len()
            invariant
                i <= self.sessions@.len(),
                forall|j: int| 0 <= j < i ==> self.sessions@[j].id != sid,
            decreases self.sessions@.len() - i,
        {
            if self.sessions[i].id == sid {
                return Some(i);
            }
            i += 1;
        }
        None
    }

    proof fn lemma_same_users(self, post: Store)
        requires
            self.wf(),
            post.wf(),
            post.users@ == self.users@,
        ensures
            forall|u: u128| post.has_user(u) == self.has_user(u),
            forall|u: u128| self.has_user(u) ==> post.username_of(u) == self.username_of(u),
    {
        assert forall|u: u128| post.has_user(u) == self.has_user(u) by {
            if self.has_user(u) {
                let i = self.user_index(u);
                self.lemma_user_at(i);
                post.lemma_user_at(i);
            }
            if post.has_user(u) {
                let i = post.user_index(u);
                post.lemma_user_at(i);
                self.lemma_user_at(i);
            }
        }
        assert forall|u: u128| self.has_user(u) implies post.username_of(u) == self.username_of(
            u,
        ) by {
            let i = self.user_index(u);
            self.lemma_user_at(i);
            post.lemma_user_at(i);
        }
    }

    proof fn lemma_same_creds(self, post: Store)
        requires
            self.wf(),
            post.wf(),
            post.credentials@ == self.credentials@,
        ensures
            forall|e: Seq<char>| post.has_email(e) == self.has_email(e),
            forall|e: Seq<char>|
                self.has_email(e) ==> post.cred_user(e) == self.cred_user(e) && post.cred_hash(e)
                    == self.cred_hash(e),
    {
        assert forall|e: Seq<char>| post.has_email(e) == self.has_email(e) by {
            if self.has_email(e) {
                let i = self.cred_index(e);
                self.lemma_cred_at(i);
                post.lemma_cred_at(i);
            }
            if post.has_email(e) {
                let i = post.cred_index(e);
                post.lemma_cred_at(i);
                self.lemma_cred_at(i);
            }
        }
        assert forall|e: Seq<char>| self.has_email(e) implies post.cred_user(e) == self.cred_user(
            e,
        ) && post.cred_hash(e) == self.cred_hash(e) by {
            let i = self.cred_index(e);
            self.lemma_cred_at(i);
            post.lemma_cred_at(i);
        }
    }

    /// Pushing one session row for an existing user keeps the
    /// invariants and changes no other observation.
    proof fn lemma_push_session(self, post: Store, sid: u128, uid: u128)
        requires
            self.wf(),
            self.has_user(uid),
            !self.has_session(sid),
            post.users@ == self.users@,
            post.credentials@ == self.credentials@,
            post.sessions@ == self.sessions@.push(SessionRow { id: sid, user_id: uid }),
        ensures
            post.wf(),
            post.has_session(sid),
            post.session_user(sid) == uid,
            forall|s: u128| s != sid ==> post.has_session(s) == self.has_session(s),
            forall|s: u128|
                s != sid && self.has_session(s) ==> post.session_user(s) == self.session_user(s),
            forall|u: u128| post.has_user(u) == self.has_user(u),
            forall|u: u128| self.has_user(u) ==> post.username_of(u) == self.username_of(u),
            forall|e: Seq<char>| post.has_email(e) == self.has_email(e),
            forall|e: Seq<char>|
                self.has_email(e) ==> post.cred_user(e) == self.cred_user(e) && post.cred_hash(e)
                    == self.cred_hash(e),
    {
        let n = self.sessions@.len() as int;
        assert(post.sessions@[n].id == sid);
        assert forall|i: int| 0 <= i < n implies post.sessions@[i] == self.sessions@[i] by {}
        assert(post.wf()) by {
            assert forall|i: int| 0 <= i < post.sessions@.len() implies post.has_user(
                post.sessions@[i].user_id,
            ) by {
                if i < n {
                    assert(self.has_user(self.sessions@[i].user_id));
                }
            }
            assert forall|i: int, j: int| 0 <= i < j < post.sessions@.len() implies
                post.sessions@[i].id != post.sessions@[j].id by {
                if j < n {
                } else {
                    assert(!self.has_session(sid));
                }
            }
        }
        post.lemma_session_at(n);
        self.lemma_same_users(post);
        self.lemma_same_creds(post);
        assert forall|s: u128| s != sid implies post.has_session(s) == self.has_session(s) by {
            if self.has_session(s) {
                let i = self.session_index(s);
                self.lemma_session_at(i);
                post.lemma_session_at(i);
            }
            if post.has_session(s) {
                let i = post.session_index(s);
                post.lemma_session_at(i);
                if i < n {
                    self.lemma_session_at(i);
                }
            }
        }
        assert forall|s: u128| s != sid && self.has_session(s) implies post.session_user(s)
            == self.session_user(s) by {
            let i = self.session_index(s);
            self.lemma_session_at(i);
            post.lemma_session_at(i);
        }
    }

    /// Pushing one row into each table for a fresh registration keeps
    /// the invariants and changes no other observation.
    proof fn lemma_push_registration(
        self,
        post: Store,
        urow: UserRow,
        crow: CredentialRow,
        srow: SessionRow,
    )
        requires
            self.wf(),
            !self.has_user(urow.id),
            !self.has_email(crow.email@),
            !self.has_session(srow.id),
            crow.user_id == urow.id,
            srow.user_id == urow.id,
            post.users@ == self.users@.push(urow),
            post.credentials@ == self.credentials@.push(crow),
            post.sessions@ == self.sessions@.push(srow),
        ensures
            post.wf(),
            post.has_user(urow.id),
            post.username_of(urow.id) == urow.username@,
            post.has_email(crow.email@),
            post.cred_user(crow.email@) == urow.id,
            post.cred_hash(crow.email@) == crow.password_hash@,
            post.has_session(srow.id),
            post.session_user(srow.id) == urow.id,
            forall|u: u128| u != urow.id ==> post.has_user(u) == self.has_user(u),
            forall|u: u128|
                u != urow.id && self.has_user(u) ==> post.username_of(u) == self.username_of(u),
            forall|e: Seq<char>| e != crow.email@ ==> post.has_email(e) == self.has_email(e),
            forall|e: Seq<char>|
                e != crow.email@ && self.has_email(e) ==> post.cred_user(e) == self.cred_user(e)
                    && post.cred_hash(e) == self.cred_hash(e),
            forall|s: u128| s != srow.id ==> post.has_session(s) == self.has_session(s),
            forall|s: u128|
                s != srow.id && self.has_session(s) ==> post.session_user(s)
                    == self.session_user(s),
    {
        let nu = self.users@.len() as int;
        let nc = self.credentials@.len() as int;
        let ns = self.sessions@.len() as int;
        assert(post.has_user(urow.id)) by {
            assert(post.users@[nu].id == urow.id);
        }
        assert(post.wf()) by {
            assert forall|i: int| 0 <= i < post.credentials@.len() implies post.has_user(
                post.credentials@[i].user_id,
            ) by {
                if i < nc {
                    assert(self.has_user(self.credentials@[i].user_id));
                    let k = self.user_index(self.credentials@[i].user_id);
                    assert(post.users@[k].id == post.credentials@[i].user_id);
                } else {
                    assert(post.users@[nu].id == urow.id);
                }
            }
            assert forall|i: int| 0 <= i < post.sessions@.len() implies post.has_user(
                post.sessions@[i].user_id,
            ) by {
                if i < ns {
                    assert(self.has_user(self.sessions@[i].user_id));
                    let k = self.user_index(self.sessions@[i].user_id);
                    assert(post.users@[k].id == post.sessions@[i].user_id);
                } else {
                    assert(post.users@[nu].id == urow.id);
                }
            }
            assert forall|i: int, j: int| 0 <= i < j < post.credentials@.len() implies
                post.credentials@[i].user_id != post.credentials@[j].user_id by {
                if j == nc {
                    assert(self.has_user(self.credentials@[i].user_id));
                }
            }
        }
        post.lemma_user_at(nu);
        post.lemma_cred_at(nc);
        post.lemma_session_at(ns);
        assert forall|u: u128| u != urow.id implies post.has_user(u) == self.has_user(u) by {
            if self.has_user(u) {
                let i = self.user_index(u);
                self.lemma_user_at(i);
                assert(post.users@[i].id == u);
            }
            if post.has_user(u) {
                let i = post.user_index(u);
                post.lemma_user_at(i);
                if i < nu {
                    assert(self.users@[i].id == u);
                }
            }
        }
        assert forall|u: u128| u != urow.id && self.has_user(u) implies post.username_of(u)
            == self.username_of(u) by {
            let i = self.user_index(u);
            self.lemma_user_at(i);
            post.lemma_user_at(i);
        }
        assert forall|e: Seq<char>| e != crow.email@ implies post.has_email(e) == self.has_email(
            e,
        ) by {
            if self.has_email(e) {
                let i = self.cred_index(e);
                self.lemma_cred_at(i);
                assert(post.credentials@[i].email@ == e);
            }
            if post.has_email(e) {
                let i = post.cred_index(e);
                post.lemma_cred_at(i);
                if i < nc {
                    assert(self.credentials@[i].email@ == e);
                }
            }
        }
        assert forall|e: Seq<char>| e != crow.email@ && self.has_email(e) implies post.cred_user(e)
            == self.cred_user(e) && post.cred_hash(e) == self.cred_hash(e) by {
            let i = self.cred_index(e);
            self.lemma_cred_at(i);
            post.lemma_cred_at(i);
        }
        assert forall|s: u128| s != srow.id implies post.has_session(s) == self.has_session(s) by {
            if self.has_session(s) {
                let i = self.session_index(s);
                self.lemma_session_at(i);
                assert(post.sessions@[i].id == s);
            }
            if post.has_session(s) {
                let i = post.session_index(s);
                post.lemma_session_at(i);
                if i < ns {
                    assert(self.sessions@[i].id == s);
                }
            }
        }
        assert forall|s: u128| s != srow.id && self.has_session(s) implies post.session_user(s)
            == self.session_user(s) by {
            let i = self.session_index(s);
            self.lemma_session_at(i);
            post.lemma_session_at(i);
        }
    }

    /// Removing the session row at one index keeps the invariants,
    /// retires exactly that session, and changes no other observation.
    proof fn lemma_remove_session(self, post: Store, i: int)
        requires
            self.wf(),
            0 <= i < self.sessions@.len(),
            post.users@ == self.users@,
            post.credentials@ == self.credentials@,
            post.sessions@ == self.sessions@.remove(i),
        ensures
            post.wf(),
            !post.has_session(self.sessions@[i].id),
            forall|s: u128|
                s != self.sessions@[i].id ==> post.has_session(s) == self.has_session(s),
            forall|s: u128|
                s != self.sessions@[i].id && self.has_session(s) ==> post.session_user(s)
                    == self.session_user(s),
            forall|u: u128| post.has_user(u) == self.has_user(u),
            forall|u: u128| self.has_user(u) ==> post.username_of(u) == self.username_of(u),
            forall|e: Seq<char>| post.has_email(e) == self.has_email(e),
            forall|e: Seq<char>|
                self.has_email(e) ==> post.cred_user(e) == self.cred_user(e) && post.cred_hash(e)
                    == self.cred_hash(e),
    {
        let sid = self.sessions@[i].id;
        let n = self.sessions@.len() as int;
        assert(post.wf()) by {
            assert forall|k: int| 0 <= k < post.sessions@.len() implies post.has_user(
                post.sessions@[k].user_id,
            ) by {
                if k < i {
                    assert(post.sessions@[k] == self.sessions@[k]);
                } else {
                    assert(post.sessions@[k] == self.sessions@[k + 1]);
                }
            }
        }
        assert(!post.has_session(sid)) by {
            assert forall|k: int| 0 <= k < post.sessions@.len() implies post.sessions@[k].id
                != sid by {
                if k < i {
                    assert(post.sessions@[k] == self.sessions@[k]);
                } else {
                    assert(post.sessions@[k] == self.sessions@[k + 1]);
                }
            }
        }
        self.lemma_same_users(post);
        self.lemma_same_creds(post);
        assert forall|s: u128| s != sid implies post.has_session(s) == self.has_session(s) by {
            if self.has_session(s) {
                let k = self.session_index(s);
                self.lemma_session_at(k);
                if k < i {
                    assert(post.sessions@[k].id == s);
                } else {
                    assert(post.sessions@[k - 1] == self.sessions@[k]);
                }
            }
            if post.has_session(s) {
                let k = post.session_index(s);
                post.lemma_session_at(k);
                if k < i {
                    assert(self.sessions@[k].id == s);
                } else {
                    assert(self.sessions@[k + 1] == post.sessions@[k]);
                }
            }
        }
        assert forall|s: u128| s != sid && self.has_session(s) implies post.session_user(s)
            == self.session_user(s) by {
            let k = self.session_index(s);
            self.lemma_session_at(k);
            if k < i {
                assert(post.sessions@[k].id == s);
                post.lemma_session_at(k);
            } else {
                assert(post.sessions@[k - 1] == self.sessions@[k]);
                post.lemma_session_at(k - 1);
            }
        }
    }

    /// The user a currently-active session authenticates, if any.
    pub fn session_lookup(&self, sid: u128) -> (r: Option<u128>)
        requires
            self.wf(),
        ensures
            r == (if self.has_session(sid) { Some(self.session_user(sid)) } else { None::<u128> }),
    {
        match self.find_session(sid) {
            Some(i) => {
                proof {
                    self.lemma_session_at(i as int);
                }
                Some(self.sessions[i].user_id)
            },
            None => None,
        }
    }

    /// Registers a new user: rejects a taken email, rejects a weak
    /// password, then creates the user, its credential with the
    /// password's hash, and a first session, all at once or not at
    /// all.
    pub fn register(&mut self, username: String, email: String, password: String) -> (r: Result<
        AuthSuccess,
        AuthError,
    >)
        requires
            old(self).wf(),
        ensures
            register_post(*old(self), *final(self), username@, email@, password@, r),
    {
        if let Some(_) = self.find_credential(&email) {
            return Err(AuthError::UserAlreadyExists);
        }
        let mut strength_context: Vec<String> = Vec::new();
        strength_context.push(email.clone());
        strength_context.push(username.clone());
        proof {
            assert(strength_context.deep_view() =~= seq![email@, username@]);
        }
        if !password::is_strong(password.as_str(), &strength_context) {
            return Err(AuthError::WeakPassword);
        }
        let user_id = token::fresh_id_raw();
        let session_id = token::fresh_id_raw();
        if self.has_user_exec(user_id) {
            return Err(AuthError::Unexpected);
        }
        if let Some(_) = self.find_session(session_id) {
            return Err(AuthError::Unexpected);
        }
        let password_hash = match password::hash(password.as_str()) {
            Ok(h) => h,
            Err(_) => {
                return Err(AuthError::Unexpected);
            },
        };
        let token = token::format_id_raw(session_id);
        let ghost pre = *self;
        let ghost urow = UserRow { id: user_id, username: username };
        let ghost crow = CredentialRow {
            email: email,
            password_hash: password_hash,
            user_id: user_id,
        };
        let ghost srow = SessionRow { id: session_id, user_id: user_id };
        self.users.push(UserRow { id: user_id, username });
        self.credentials.push(CredentialRow { email, password_hash, user_id });
        self.sessions.push(SessionRow { id: session_id, user_id });
        proof {
            pre.lemma_push_registration(*self, urow, crow, srow);
        }
        Ok(AuthSuccess { user_id, session_id, token })
    }

    /// Authenticates a returning user: an unknown email and a failed
    /// verification fail alike, a corrupt stored hash fails as an
    /// internal fault, and success opens a fresh session.
    pub fn login(&mut self, email: String, password: String) -> (r: Result<
        AuthSuccess,
        AuthError,
    >)
        requires
            old(self).wf(),
        ensures
            login_post(*old(self), *final(self), email@, password@, r),
    {
        let cred_idx = match self.find_credential(&email) {
            Some(i) => i,
            None => {
                return Err(AuthError::WrongLoginOrPassword);
            },
        };
        proof {
            self.lemma_cred_at(cred_idx as int);
        }
        let verified = match password::verify(
            password.as_str(),
            self.credentials[cred_idx].password_hash.as_str(),
        ) {
            Ok(b) => b,
            Err(_) => {
                return Err(AuthError::Unexpected);
            },
        };
        if !verified {
            return Err(AuthError::WrongLoginOrPassword);
        }
        let session_id = token::fresh_id_raw();
        if let Some(_) = self.find_session(session_id) {
            return Err(AuthError::Unexpected);
        }
        let user_id = self.credentials[cred_idx].user_id;
        let token = token::format_id_raw(session_id);
        let ghost pre = *self;
        self.sessions.push(SessionRow { id: session_id, user_id });
        proof {
            pre.lemma_push_session(*self, session_id, user_id);
        }
        Ok(AuthSuccess { user_id, session_id, token })
    }

    /// Revokes the session a cookie value names. No cookie is a
    /// no-op; a malformed value is rejected; deleting a session that
    /// is already gone still succeeds, so logout is idempotent.
    pub fn logout(&mut self, token_value: Option<&str>) -> (r: Result<bool, AuthError>)
        requires
            old(self).wf(),
        ensures
            logout_post(*old(self), *final(self), opt_str_view(token_value), r),
    {
        let t = match token_value {
            None => {
                return Ok(false);
            },
            Some(t) => t,
        };
        let sid = match token::parse_id_raw(t) {
            None => {
                return Err(AuthError::InvalidSession);
            },
            Some(sid) => sid,
        };
        if let Some(i) = self.find_session(sid) {
            let ghost pre = *self;
            self.sessions.remove(i);
            proof {
                pre.lemma_remove_session(*self, i as int);
            }
        }
        Ok(true)
    }
}

/// The session cookie value as the guard and logout see it: the
/// characters of the cookie that was presented, if one was.
pub open spec fn opt_str_view(token_value: Option<&str>) -> Option<Seq<char>> {
    match token_value {
        Some(t) => Some(t@),
        None => None,
    }
}

/// A successful registration, related state-to-state: the email was
/// free, the password cleared the strength tier, and a fresh user now
/// owns the new credential — whose stored hash verifies against the
/// password — and the one new session; no other observation moved.
pub open spec fn register_ok(
    pre: Store,
    post: Store,
    username: Seq<char>,
    email: Seq<char>,
    password: Seq<char>,
    a: AuthSuccess,
) -> bool {
    &&& !pre.has_email(email)
    &&& password.len() > 0
    &&& zxcvbn_score_of(password, seq![email, username]) >= MIN_STRENGTH_SCORE
    &&& !pre.has_user(a.user_id)
    &&& !pre.has_session(a.session_id)
    &&& uuid_of_string(a.token@) == Some(a.session_id)
    &&& post.has_user(a.user_id)
    &&& post.username_of(a.user_id) == username
    &&& post.has_email(email)
    &&& post.cred_user(email) == a.user_id
    &&& argon2_verify_outcome(password, post.cred_hash(email)) == Some(true)
    &&& post.has_session(a.session_id)
    &&& post.session_user(a.session_id) == a.user_id
    &&& (forall|u: u128| u != a.user_id ==> post.has_user(u) == pre.has_user(u))
    &&& (forall|u: u128|
        u != a.user_id && pre.has_user(u) ==> post.username_of(u) == pre.username_of(u))
    &&& (forall|e2: Seq<char>| e2 != email ==> post.has_email(e2) == pre.has_email(e2))
    &&& (forall|e2: Seq<char>|
        e2 != email && pre.has_email(e2) ==> post.cred_user(e2) == pre.cred_user(e2)
            && post.cred_hash(e2) == pre.cred_hash(e2))
    &&& (forall|s: u128| s != a.session_id ==> post.has_session(s) == pre.has_session(s))
    &&& (forall|s: u128|
        s != a.session_id && pre.has_session(s) ==> post.session_user(s) == pre.session_user(s))
}

/// The register workflow's full contract. The strength scorer can
/// fail outside its inputs (a clock fault), and hashing or identifier
/// generation can fail internally, so a free email with a strong
/// password is promised either success or an `Unexpected` failure
/// that left the store untouched — never a domain error.
pub open spec fn register_post(
    pre: Store,
    post: Store,
    username: Seq<char>,
    email: Seq<char>,
    password: Seq<char>,
    r: Result<AuthSuccess, AuthError>,
) -> bool {
    &&& post.wf()
    &&& (r matches Err(e) ==> post == pre && (e == AuthError::UserAlreadyExists || e
        == AuthError::WeakPassword || e == AuthError::Unexpected))
    &&& ((r == Err::<AuthSuccess, AuthError>(AuthError::UserAlreadyExists)) <==> pre.has_email(
        email,
    ))
    &&& (r == Err::<AuthSuccess, AuthError>(AuthError::WeakPassword) ==> !pre.has_email(email))
    &&& (!pre.has_email(email) && strength_known_weak(password, seq![email, username]) ==> r
        == Err::<AuthSuccess, AuthError>(AuthError::WeakPassword))
    &&& (r == Err::<AuthSuccess, AuthError>(AuthError::Unexpected) ==> !pre.has_email(email)
        && password.len() > 0 && zxcvbn_score_of(password, seq![email, username])
        >= MIN_STRENGTH_SCORE)
    &&& (r matches Ok(a) ==> register_ok(pre, post, username, email, password, a))
}

/// A successful login, related state-to-state: the credential exists,
/// the password verifies against its stored hash, and the one new
/// session belongs to that credential's user; no other observation
/// moved.
pub open spec fn login_ok(
    pre: Store,
    post: Store,
    email: Seq<char>,
    password: Seq<char>,
    a: AuthSuccess,
) -> bool {
    &&& pre.has_email(email)
    &&& argon2_verify_outcome(password, pre.cred_hash(email)) == Some(true)
    &&& a.user_id == pre.cred_user(email)
    &&& !pre.has_session(a.session_id)
    &&& uuid_of_string(a.token@) == Some(a.session_id)
    &&& post.has_session(a.session_id)
    &&& post.session_user(a.session_id) == a.user_id
    &&& (forall|s: u128| s != a.session_id ==> post.has_session(s) == pre.has_session(s))
    &&& (forall|s: u128|
        s != a.session_id && pre.has_session(s) ==> post.session_user(s) == pre.session_user(s))
    &&& (forall|u: u128| post.has_user(u) == pre.has_user(u))
    &&& (forall|u: u128| pre.has_user(u) ==> post.username_of(u) == pre.username_of(u))
    &&& (forall|e2: Seq<char>| post.has_email(e2) == pre.has_email(e2))
    &&& (forall|e2: Seq<char>|
        pre.has_email(e2) ==> post.cred_user(e2) == pre.cred_user(e2) && post.cred_hash(e2)
            == pre.cred_hash(e2))
}

/// The login workflow's full contract: an unknown email and a
/// definite mismatch yield the one indistinguishable error and leave
/// the store unchanged; a corrupt stored hash yields `Unexpected`,
/// never `WrongLoginOrPassword`.
pub open spec fn login_post(
    pre: Store,
    post: Store,
    email: Seq<char>,
    password: Seq<char>,
    r: Result<AuthSuccess, AuthError>,
) -> bool {
    &&& post.wf()
    &&& (r matches Err(e) ==> post == pre && (e == AuthError::WrongLoginOrPassword || e
        == AuthError::Unexpected))
    &&& ((r == Err::<AuthSuccess, AuthError>(AuthError::WrongLoginOrPassword)) <==> (
    !pre.has_email(email) || (pre.has_email(email) && argon2_verify_outcome(
        password,
        pre.cred_hash(email),
    ) == Some(false))))
    &&& (pre.has_email(email) && argon2_verify_outcome(password, pre.cred_hash(email)) is None
        ==> r == Err::<AuthSuccess, AuthError>(AuthError::Unexpected))
    &&& (r matches Ok(a) ==> login_ok(pre, post, email, password, a))
}

/// A completed logout, related state-to-state: the named session is
/// gone — whether or not it existed — and nothing else moved.
pub open spec fn logout_ok(pre: Store, post: Store, sid: u128) -> bool {
    &&& !post.has_session(sid)
    &&& (forall|s: u128| s != sid ==> post.has_session(s) == pre.has_session(s))
    &&& (forall|s: u128|
        s != sid && pre.has_session(s) ==> post.session_user(s) == pre.session_user(s))
    &&& (forall|u: u128| post.has_user(u) == pre.has_user(u))
    &&& (forall|u: u128| pre.has_user(u) ==> post.username_of(u) == pre.username_of(u))
    &&& (forall|e: Seq<char>| post.has_email(e) == pre.has_email(e))
    &&& (forall|e: Seq<char>|
        pre.has_email(e) ==> post.cred_user(e) == pre.cred_user(e) && post.cred_hash(e)
            == pre.cred_hash(e))
}

/// The logout workflow's full contract: no cookie is a successful
/// no-op, a malformed cookie value is rejected with the store
/// untouched, and a well-formed one always succeeds and retires the
/// session it names.
pub open spec fn logout_post(
    pre: Store,
    post: Store,
    token_value: Option<Seq<char>>,
    r: Result<bool, AuthError>,
) -> bool {
    &&& post.wf()
    &&& (token_value is None ==> r == Ok::<bool, AuthError>(false) && post == pre)
    &&& (token_value matches Some(t) ==> (match uuid_of_string(t) {
        None => r == Err::<bool, AuthError>(AuthError::InvalidSession) && post == pre,
        Some(sid) => r == Ok::<bool, AuthError>(true) && logout_ok(pre, post, sid),
    }))
}

} // verus!
