//! Runtime tests of the repository: the create/lookup scenarios, the error
//! taxonomy, and the end-to-end flow.

use user_repo::errors::RepoError;
use user_repo::hasher::CredentialHasher;
use user_repo::repo::UserRepository;
use user_repo::user::NewUser;
use user_repo::user::User;

fn new_user(username: &str, email: &str, password: &str) -> NewUser {
    NewUser {
        username: username.to_owned(),
        email: email.to_owned(),
        password: password.to_owned(),
    }
}

#[test]
fn create_returns_full_user() {
    let hasher = CredentialHasher::new();
    let mut repo = UserRepository::new();
    let user: User = repo
        .create_user(new_user("alice", "alice@example.com", "s3cr3t"), &hasher)
        .unwrap();
    assert_eq!(user.username, "alice");
    assert_eq!(user.email, "alice@example.com");
    assert!(!user.password_hash.is_empty());
    assert_ne!(user.password_hash, "s3cr3t");
    assert_eq!(user.id, 1);
    assert_eq!(user.created_at, 1);
}

#[test]
fn duplicate_username_is_rejected_and_one_row_stays() {
    let hasher = CredentialHasher::new();
    let mut repo = UserRepository::new();
    repo.create_user(new_user("alice", "alice@example.com", "pw1"), &hasher)
        .unwrap();
    let second = repo.create_user(new_user("alice", "other@example.com", "pw2"), &hasher);
    assert_eq!(second, Err(RepoError::UniqueConstraintViolation));
    assert_eq!(repo.user_count(), 1);
}

#[test]
fn duplicate_email_is_rejected() {
    let hasher = CredentialHasher::new();
    let mut repo = UserRepository::new();
    repo.create_user(new_user("alice", "alice@example.com", "pw1"), &hasher)
        .unwrap();
    let second = repo.create_user(new_user("bob", "alice@example.com", "pw2"), &hasher);
    assert_eq!(second, Err(RepoError::UniqueConstraintViolation));
    assert_eq!(repo.user_count(), 1);
}

#[test]
fn find_by_username_returns_created_user() {
    let hasher = CredentialHasher::new();
    let mut repo = UserRepository::new();
    let created = repo
        .create_user(new_user("alice", "alice@example.com", "pw"), &hasher)
        .unwrap();
    let first = repo.find_by_username("alice").unwrap().unwrap();
    let again = repo.find_by_username("alice").unwrap().unwrap();
    assert_eq!(first, created);
    assert_eq!(again, first);
}

#[test]
fn find_by_email_matches_the_same_user() {
    let hasher = CredentialHasher::new();
    let mut repo = UserRepository::new();
    let created = repo
        .create_user(new_user("alice", "alice@example.com", "pw"), &hasher)
        .unwrap();
    let by_email = repo.find_by_username("alice@example.com").unwrap().unwrap();
    assert_eq!(by_email, created);
}

#[test]
fn find_with_unknown_identifier_is_absent_not_error() {
    let hasher = CredentialHasher::new();
    let mut repo = UserRepository::new();
    assert_eq!(repo.find_by_username("nobody"), Ok(None));
    repo.create_user(new_user("alice", "alice@example.com", "pw"), &hasher)
        .unwrap();
    assert_eq!(repo.find_by_username("nobody"), Ok(None));
}

#[test]
fn dual_column_double_match_is_ambiguous() {
    let hasher = CredentialHasher::new();
    let mut repo = UserRepository::new();
    // One row whose username is the identifier, another whose email is.
    repo.create_user(new_user("x@y.example", "first@example.com", "pw1"), &hasher)
        .unwrap();
    repo.create_user(new_user("second", "x@y.example", "pw2"), &hasher)
        .unwrap();
    assert_eq!(
        repo.find_by_username("x@y.example"),
        Err(RepoError::AmbiguousResult)
    );
}

#[test]
fn end_to_end_alice() {
    let hasher = CredentialHasher::new();
    let mut repo = UserRepository::new();
    let created = repo
        .create_user(new_user("alice", "alice@example.com", "s3cr3t"), &hasher)
        .unwrap();
    assert_eq!(created.username, "alice");
    assert_eq!(created.email, "alice@example.com");
    assert!(!created.password_hash.is_empty());
    assert_ne!(created.password_hash, "s3cr3t");

    let by_name = repo.find_by_username("alice").unwrap().unwrap();
    let by_email = repo.find_by_username("alice@example.com").unwrap().unwrap();
    assert_eq!(by_name, created);
    assert_eq!(by_email, created);

    let second = repo.create_user(new_user("alice", "elsewhere@example.com", "pw"), &hasher);
    assert_eq!(second, Err(RepoError::UniqueConstraintViolation));
}

#[test]
fn identifiers_and_stamps_advance_per_row() {
    let hasher = CredentialHasher::new();
    let mut repo = UserRepository::new();
    let a = repo
        .create_user(new_user("alice", "alice@example.com", "pw"), &hasher)
        .unwrap();
    let b = repo
        .create_user(new_user("bob", "bob@example.com", "pw"), &hasher)
        .unwrap();
    assert_eq!(a.id, 1);
    assert_eq!(b.id, 2);
    assert_eq!(a.created_at, 1);
    assert_eq!(b.created_at, 2);
    // A failed create consumes no identifier.
    let refused = repo.create_user(new_user("bob", "new@example.com", "pw"), &hasher);
    assert_eq!(refused, Err(RepoError::UniqueConstraintViolation));
    let c = repo
        .create_user(new_user("carol", "carol@example.com", "pw"), &hasher)
        .unwrap();
    assert_eq!(c.id, 3);
}
