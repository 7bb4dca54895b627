use auth_service::bcrypt_hasher::{digest_or_reason, is_match, BcryptHasher, DIGEST_CHARS};
use auth_service::domain::Hasher;

#[test]
fn hash_then_verify_accepts_the_password() {
    let hasher = BcryptHasher::new();
    let stored = hasher.hash("password1").unwrap();
    assert!(hasher.verify("password1", &stored));
}

#[test]
fn verify_rejects_another_password() {
    let hasher = BcryptHasher::new();
    let stored = hasher.hash("password1").unwrap();
    assert!(!hasher.verify("password2", &stored));
}

#[test]
fn hash_is_a_bcrypt_digest_and_not_the_password() {
    let hasher = BcryptHasher::new();
    let stored = hasher.hash("password1").unwrap();
    assert_ne!(stored, "password1");
    assert_eq!(stored.len(), 60);
    assert_eq!(stored.chars().count(), DIGEST_CHARS);
    assert!(stored.starts_with("$2"));
}

#[test]
fn hash_differs_from_call_to_call() {
    let hasher = BcryptHasher::new();
    let first = hasher.hash("password1").unwrap();
    let second = hasher.hash("password1").unwrap();
    assert_ne!(first, second);
}

#[test]
fn verify_treats_malformed_digest_as_mismatch() {
    let hasher = BcryptHasher::new();
    assert!(!hasher.verify("password1", ""));
    assert!(!hasher.verify("password1", "password1"));
    assert!(!hasher.verify("password1", "$2b$12$tooshort"));
    assert!(!hasher.verify("password1", "\u{00E9}\u{00E9}\u{00E9}"));
}

#[test]
fn verify_accepts_a_digest_made_at_another_cost() {
    let hasher = BcryptHasher::new();
    let made = bcrypt::hash("hunter2", 4).unwrap();
    assert!(hasher.verify("hunter2", &made));
    assert!(!hasher.verify("hunter3", &made));
}

#[test]
fn only_a_plain_yes_is_a_match() {
    assert!(is_match(Some(true)));
    assert!(!is_match(Some(false)));
    assert!(!is_match(None));
}

#[test]
fn digest_passes_through_and_error_becomes_its_text() {
    assert_eq!(digest_or_reason(Ok("digest".to_string())), Ok("digest".to_string()));
    assert_eq!(
        digest_or_reason(Err(bcrypt::BcryptError::CostNotAllowed(99))),
        Err("Cost needs to be between 4 and 31, got 99".to_string())
    );
    assert_eq!(
        digest_or_reason(Err(bcrypt::BcryptError::Truncation(80))),
        Err("Expected 72 bytes or fewer; found 80 bytes".to_string())
    );
}
