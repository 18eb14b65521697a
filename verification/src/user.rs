//! The two record types of the store.
//!
//! [`User`] is one persisted row; its mathematical image is
//! [`crate::model::UserView`]. [`NewUser`] is the transient input of a create
//! call: it carries the plaintext password, is consumed by exactly one create
//! call, and is never persisted.

use crate::model::UserView;
use vstd::prelude::*;

verus! {

/// A persisted user row. The identifier and the creation stamp are assigned
/// by the store; the row is immutable once created.
#[derive(Debug, PartialEq, Eq)]
pub struct User {
    pub id: u64,
    pub username: String,
    pub email: String,
    pub password_hash: String,
    pub created_at: u64,
}

impl View for User {
    type V = UserView;

    open spec fn view(&self) -> UserView {
        UserView {
            id: self.id as int,
            username: self.username@,
            email: self.email@,
            password_hash: self.password_hash@,
            created_at: self.created_at as int,
        }
    }
}

impl Clone for User {
    fn clone(&self) -> (r: Self)
        ensures
            r == *self,
    {
        User {
            id: self.id,
            username: self.username.clone(),
            email: self.email.clone(),
            password_hash: self.password_hash.clone(),
            created_at: self.created_at,
        }
    }
}

/// The input of a create call: a username, an email, and the plaintext
/// password that the hasher consumes.
#[derive(Debug, PartialEq, Eq)]
pub struct NewUser {
    pub username: String,
    pub email: String,
    pub password: String,
}

} // verus!
