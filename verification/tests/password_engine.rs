use auth_core::errors::AuthError;
use auth_core::password;

#[test]
fn hash_then_verify_succeeds() {
    let hashed = password::hash("Tr0ub4dor&3xyz!").expect("hashing should succeed");
    assert_ne!(hashed, "Tr0ub4dor&3xyz!");
    assert_eq!(password::verify("Tr0ub4dor&3xyz!", hashed.as_str()), Ok(true));
}

#[test]
fn verify_distinct_password_fails() {
    let hashed = password::hash("Tr0ub4dor&3xyz!").expect("hashing should succeed");
    assert_eq!(password::verify("Tr0ub4dor&3xyz?", hashed.as_str()), Ok(false));
    assert_eq!(password::verify("", hashed.as_str()), Ok(false));
}

#[test]
fn two_hashes_of_one_password_differ_but_both_verify() {
    let first = password::hash("Tr0ub4dor&3xyz!").expect("hashing should succeed");
    let second = password::hash("Tr0ub4dor&3xyz!").expect("hashing should succeed");
    assert_ne!(first, second);
    assert_eq!(password::verify("Tr0ub4dor&3xyz!", first.as_str()), Ok(true));
    assert_eq!(password::verify("Tr0ub4dor&3xyz!", second.as_str()), Ok(true));
}

#[test]
fn verify_rejects_corrupt_hash_as_unexpected() {
    assert_eq!(
        password::verify("anything", "not a phc hash string"),
        Err(AuthError::Unexpected)
    );
}

#[test]
fn strength_uses_contextual_inputs() {
    let context = vec!["a@x.com".to_string(), "alice".to_string()];
    assert!(!password::is_strong("a@x.com", &context));
    assert!(!password::is_strong("alice", &context));
    assert!(!password::is_strong("", &context));
    assert!(!password::is_strong("password123", &context));
    assert!(password::is_strong("Tr0ub4dor&3xyz!", &context));
}

#[test]
fn score_passes_requires_strong_tier() {
    assert!(!password::score_passes(&None));
    assert!(!password::score_passes(&Some(0)));
    assert!(!password::score_passes(&Some(2)));
    assert!(password::score_passes(&Some(3)));
    assert!(password::score_passes(&Some(4)));
}
