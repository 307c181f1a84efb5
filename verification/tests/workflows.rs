use auth_core::errors::AuthError;
use auth_core::session::Session;
use auth_core::store::Store;

fn register_alice(store: &mut Store) -> auth_core::store::AuthSuccess {
    store
        .register(
            "alice".to_string(),
            "a@x.com".to_string(),
            "Tr0ub4dor&3xyz!".to_string(),
        )
        .expect("registration should succeed")
}

#[test]
fn register_issues_resolving_session() {
    let mut store = Store::new();
    let success = register_alice(&mut store);
    let session = Session::from_token(&store, Some(success.token.as_str()))
        .expect("fresh cookie should resolve");
    assert_eq!(session.user_id, success.user_id);
}

#[test]
fn duplicate_email_rejected_even_with_other_username() {
    let mut store = Store::new();
    register_alice(&mut store);
    let second = store.register(
        "bob".to_string(),
        "a@x.com".to_string(),
        "An0ther&G00d1xyz".to_string(),
    );
    assert_eq!(second, Err(AuthError::UserAlreadyExists));
}

#[test]
fn weak_password_rejected() {
    let mut store = Store::new();
    let r = store.register(
        "alice".to_string(),
        "a@x.com".to_string(),
        "password".to_string(),
    );
    assert_eq!(r, Err(AuthError::WeakPassword));
}

#[test]
fn password_matching_email_or_username_rejected() {
    let mut store = Store::new();
    let by_email = store.register(
        "alice".to_string(),
        "a@x.com".to_string(),
        "a@x.com".to_string(),
    );
    assert_eq!(by_email, Err(AuthError::WeakPassword));

    let by_username = store.register(
        "seahorse-keeper".to_string(),
        "keeper@reef.example".to_string(),
        "seahorse-keeper".to_string(),
    );
    assert_eq!(by_username, Err(AuthError::WeakPassword));

    let permuted = store.register(
        "seahorse-keeper".to_string(),
        "keeper@reef.example".to_string(),
        "Seahorse-Keeper1".to_string(),
    );
    assert_eq!(permuted, Err(AuthError::WeakPassword));
}

#[test]
fn blank_password_rejected() {
    let mut store = Store::new();
    let r = store.register("alice".to_string(), "a@x.com".to_string(), String::new());
    assert_eq!(r, Err(AuthError::WeakPassword));
}

#[test]
fn login_wrong_password_and_unknown_email_indistinguishable() {
    let mut store = Store::new();
    register_alice(&mut store);
    let wrong_password = store.login("a@x.com".to_string(), "wrong".to_string());
    let unknown_email = store.login("nobody@x.com".to_string(), "Tr0ub4dor&3xyz!".to_string());
    let (e1, e2) = match (wrong_password, unknown_email) {
        (Err(e1), Err(e2)) => (e1, e2),
        other => panic!("both logins should fail: {:?}", other),
    };
    assert_eq!(e1, AuthError::WrongLoginOrPassword);
    assert_eq!(e1, e2);
    assert_eq!(e1.status_code(), e2.status_code());
    assert_eq!(e1.status_code(), 401);
}

#[test]
fn login_issues_distinct_resolving_session() {
    let mut store = Store::new();
    let first = register_alice(&mut store);
    let second = store
        .login("a@x.com".to_string(), "Tr0ub4dor&3xyz!".to_string())
        .expect("login with the correct password should succeed");
    assert_ne!(first.token, second.token);
    assert_ne!(first.session_id, second.session_id);
    assert_eq!(second.user_id, first.user_id);
    let session = Session::from_token(&store, Some(second.token.as_str()))
        .expect("login cookie should resolve");
    assert_eq!(session.user_id, first.user_id);
}

#[test]
fn logout_invalidates_only_that_session() {
    let mut store = Store::new();
    let first = register_alice(&mut store);
    let second = store
        .login("a@x.com".to_string(), "Tr0ub4dor&3xyz!".to_string())
        .expect("login should succeed");

    assert_eq!(store.logout(Some(first.token.as_str())), Ok(true));
    let stale = Session::from_token(&store, Some(first.token.as_str()));
    assert_eq!(stale.err(), Some(AuthError::InvalidSession));

    let live = Session::from_token(&store, Some(second.token.as_str()))
        .expect("the other session should still resolve");
    assert_eq!(live.user_id, second.user_id);

    assert_eq!(store.logout(Some(second.token.as_str())), Ok(true));
    let gone = Session::from_token(&store, Some(second.token.as_str()));
    assert_eq!(gone.err(), Some(AuthError::InvalidSession));
}

#[test]
fn logout_without_cookie_is_noop() {
    let mut store = Store::new();
    assert_eq!(store.logout(None), Ok(false));
    register_alice(&mut store);
    assert_eq!(store.logout(None), Ok(false));
}

#[test]
fn logout_is_idempotent() {
    let mut store = Store::new();
    let success = register_alice(&mut store);
    assert_eq!(store.logout(Some(success.token.as_str())), Ok(true));
    assert_eq!(store.logout(Some(success.token.as_str())), Ok(true));
}

#[test]
fn logout_rejects_malformed_cookie() {
    let mut store = Store::new();
    assert_eq!(
        store.logout(Some("not-a-session-identifier")),
        Err(AuthError::InvalidSession)
    );
}

#[test]
fn full_scenario() {
    let mut store = Store::new();

    let c1 = store
        .register(
            "alice".to_string(),
            "a@x.com".to_string(),
            "Tr0ub4dor&3xyz!".to_string(),
        )
        .expect("first registration should succeed");

    let dup = store.register(
        "bob".to_string(),
        "a@x.com".to_string(),
        "Tr0ub4dor&3xyz!".to_string(),
    );
    assert_eq!(dup, Err(AuthError::UserAlreadyExists));
    assert_eq!(AuthError::UserAlreadyExists.status_code(), 400);

    let wrong = store.login("a@x.com".to_string(), "wrong".to_string());
    assert_eq!(wrong, Err(AuthError::WrongLoginOrPassword));
    assert_eq!(AuthError::WrongLoginOrPassword.status_code(), 401);

    let c2 = store
        .login("a@x.com".to_string(), "Tr0ub4dor&3xyz!".to_string())
        .expect("login with the correct password should succeed");
    assert_ne!(c2.token, c1.token);

    assert_eq!(store.logout(Some(c1.token.as_str())), Ok(true));
    let stale1 = Session::from_token(&store, Some(c1.token.as_str()));
    assert_eq!(stale1.err(), Some(AuthError::InvalidSession));

    assert_eq!(store.logout(Some(c2.token.as_str())), Ok(true));
    let stale2 = Session::from_token(&store, Some(c2.token.as_str()));
    assert_eq!(stale2.err(), Some(AuthError::InvalidSession));
}

#[test]
fn guard_rejects_absent_malformed_and_stale_cookies() {
    let mut store = Store::new();
    let success = register_alice(&mut store);

    let absent = Session::from_token(&store, None);
    assert_eq!(absent.err(), Some(AuthError::InvalidSession));

    let malformed = Session::from_token(&store, Some("zzz"));
    assert_eq!(malformed.err(), Some(AuthError::InvalidSession));

    let unknown = Session::from_token(&store, Some("00000000-0000-0000-0000-000000000000"));
    assert_eq!(unknown.err(), Some(AuthError::InvalidSession));

    let live = Session::from_token(&store, Some(success.token.as_str()));
    assert!(live.is_ok());
}
