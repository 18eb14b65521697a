//! Runtime tests of the credential hasher and of the database error-code
//! classification.

use user_repo::errors::{error_from_db_code, unique_violation_code_str, RepoError};
use user_repo::hasher::CredentialHasher;

#[test]
fn hash_is_nonempty_and_differs_from_plaintext() {
    let hasher = CredentialHasher::new();
    let hash = hasher.hash_password("s3cr3t");
    assert!(!hash.is_empty());
    assert_ne!(hash, "s3cr3t");
}

#[test]
fn hash_of_empty_password_is_still_nonempty() {
    let hasher = CredentialHasher::new();
    let hash = hasher.hash_password("");
    assert!(!hash.is_empty());
}

#[test]
fn hash_is_one_character_longer_than_the_password() {
    let hasher = CredentialHasher::new();
    for pw in ["", "a", "s3cr3t", "a rather longer passphrase"] {
        let hash = hasher.hash_password(pw);
        assert_eq!(hash.chars().count(), pw.chars().count() + 1);
    }
}

#[test]
fn hash_depends_only_on_the_password() {
    let first = CredentialHasher::new().hash_password("s3cr3t");
    let second = CredentialHasher::new().hash_password("s3cr3t");
    assert_eq!(first, second);
    let other = CredentialHasher::new().hash_password("s3cr3u");
    assert_ne!(first, other);
}

#[test]
fn unique_violation_code_is_the_distinguished_marker() {
    assert_eq!(unique_violation_code_str(), "23505");
}

#[test]
fn db_codes_are_classified() {
    assert_eq!(
        error_from_db_code("23505"),
        RepoError::UniqueConstraintViolation
    );
    assert_eq!(error_from_db_code("08006"), RepoError::Connection);
    assert_eq!(error_from_db_code(""), RepoError::Connection);
}
