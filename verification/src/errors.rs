//! The failure taxonomy of the store, and the mapping from the backing
//! database's distinguished error code onto it.
//!
//! Absence of a row is never an error: a lookup that matches nothing returns
//! an explicit `None`.

use vstd::prelude::*;

verus! {

/// Every failure a repository operation can surface.
#[derive(Clone, Copy, Debug, PartialEq, Eq)]
pub enum RepoError {
    /// The credential hasher failed; nothing was written.
    Hashing,
    /// The insert would duplicate a username or an email. The store does not
    /// say which of the two columns conflicted.
    UniqueConstraintViolation,
    /// The transport to the backing store failed.
    Connection,
    /// A lookup matched more than one row, which the uniqueness invariant is
    /// meant to rule out.
    AmbiguousResult,
}

/// The error code with which a relational backing store signals a unique
/// constraint violation. Any substitute store must map its own uniqueness
/// signal to this same marker.
pub open spec fn unique_violation_code() -> Seq<char> {
    "23505"@
}

/// The distinguished code as a string slice, for callers that drive a real
/// database connection.
pub fn unique_violation_code_str() -> (r: &'static str)
    ensures
        r@ == unique_violation_code(),
{
    "23505"
}

/// Classify a database error code: the distinguished unique-violation code
/// maps to [`RepoError::UniqueConstraintViolation`]; every other code is a
/// transport-level failure.
pub fn error_from_db_code(code: &str) -> (r: RepoError)
    ensures
        code@ == unique_violation_code() ==> r == RepoError::UniqueConstraintViolation,
        code@ != unique_violation_code() ==> r == RepoError::Connection,
{
    let code_owned: String = code.to_owned();
    let target: String = "23505".to_owned();
    if code_owned == target {
        RepoError::UniqueConstraintViolation
    } else {
        RepoError::Connection
    }
}

} // verus!
