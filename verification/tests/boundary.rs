use auth_core::errors::AuthError;
use auth_core::session::session_cookie_name;
use auth_core::Environment;

#[test]
fn environment_parses_ignoring_case() {
    assert_eq!(Environment::try_from("development"), Ok(Environment::Development));
    assert_eq!(Environment::try_from("DEV"), Ok(Environment::Development));
    assert_eq!(Environment::try_from("Production"), Ok(Environment::Production));
    assert_eq!(Environment::try_from("prod"), Ok(Environment::Production));
}

#[test]
fn environment_rejects_unknown_mode() {
    let r = Environment::try_from("Staging");
    assert_eq!(
        r,
        Err("staging is not supported environment. Use either `local` or `production`"
            .to_string())
    );
}

#[test]
fn error_status_codes() {
    assert_eq!(AuthError::UserAlreadyExists.status_code(), 400);
    assert_eq!(AuthError::MissingCredential.status_code(), 400);
    assert_eq!(AuthError::WeakPassword.status_code(), 400);
    assert_eq!(AuthError::WrongLoginOrPassword.status_code(), 401);
    assert_eq!(AuthError::InvalidSession.status_code(), 401);
    assert_eq!(AuthError::Unexpected.status_code(), 500);
}

#[test]
fn error_messages() {
    assert_eq!(AuthError::UserAlreadyExists.message(), "User already exists");
    assert_eq!(AuthError::MissingCredential.message(), "Missing credential");
    assert_eq!(AuthError::WeakPassword.message(), "Password is too weak");
    assert_eq!(
        AuthError::WrongLoginOrPassword.message(),
        "Incorrect email or password"
    );
    assert_eq!(AuthError::InvalidSession.message(), "Invalid or expired session");
    assert_eq!(AuthError::Unexpected.message(), "Unexpected server error");
}

#[test]
fn cookie_name_is_fixed() {
    assert_eq!(session_cookie_name(), "session");
}
