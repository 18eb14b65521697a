//! The user repository: the two operations of the store, with their full
//! contracts over the model of [`crate::model`].
//!
//! The repository keeps the table rows in memory, standing in for the
//! external relational store; the two counters assign identifiers and
//! creation stamps the way a database server would. A deployment that drives
//! a real database reuses the same record types, the error taxonomy, and the
//! code classification of [`crate::errors`].

use crate::errors::RepoError;
use crate::hasher::CredentialHasher;
use crate::hasher::hash_of;
use crate::model::StoreView;
use crate::model::UserView;
use crate::model::created_row;
use crate::model::has_email;
use crate::model::has_username;
use crate::model::insert_allowed;
use crate::model::inserted;
use crate::model::lemma_matching_prefix_len;
use crate::model::lemma_matching_take_step;
use crate::model::matching;
use crate::model::row_matches;
use crate::model::wf_store;
use crate::user::NewUser;
use crate::user::User;
use vstd::prelude::*;

verus! {

/// A stateless façade in spirit: two independent request/response
/// operations over one user table.
pub struct UserRepository {
    users: Vec<User>,
    next_id: u64,
    clock: u64,
}

impl View for UserRepository {
    type V = StoreView;

    closed spec fn view(&self) -> StoreView {
        StoreView {
            rows: Seq::new(self.users@.len(), |i: int| self.users@[i]@),
            next_id: self.next_id as int,
            clock: self.clock as int,
        }
    }
}

impl UserRepository {
    /// A repository over an empty table. Identifiers and creation stamps
    /// start at one, so both are non-zero on every persisted row.
    pub fn new() -> (r: Self)
        ensures
            r@.rows == Seq::<UserView>::empty(),
            r@.next_id == 1,
            r@.clock == 1,
            wf_store(r@),
    {
        let r = UserRepository { users: Vec::new(), next_id: 1, clock: 1 };
        proof {
            assert(r@.rows =~= Seq::<UserView>::empty());
        }
        r
    }

    /// How many rows the table holds.
    pub fn user_count(&self) -> (n: usize)
        ensures
            n == self@.rows.len(),
    {
        self.users.len()
    }

    /// Create a user: hash the plaintext password, then insert one row.
    ///
    /// Either the whole row is persisted and returned — with the caller's
    /// username and email, the hashed credential, and a server-assigned
    /// identifier and creation stamp — or, when the username or the email is
    /// already taken, nothing is written and the single unique-constraint
    /// failure is surfaced; it does not say which column conflicted.
    pub fn create_user(&mut self, new_user: NewUser, hasher: &CredentialHasher) -> (r: Result<
        User,
        RepoError,
    >)
        requires
            wf_store(old(self)@),
            old(self)@.next_id < u64::MAX,
            old(self)@.clock < u64::MAX,
        ensures
            wf_store(final(self)@),
            insert_allowed(old(self)@, new_user.username@, new_user.email@) ==> {
                &&& final(self)@ == inserted(
                    old(self)@,
                    new_user.username@,
                    new_user.email@,
                    hash_of(new_user.password@),
                )
                &&& r matches Ok(u) && u@ == created_row(
                    old(self)@,
                    new_user.username@,
                    new_user.email@,
                    hash_of(new_user.password@),
                )
            },
            !insert_allowed(old(self)@, new_user.username@, new_user.email@) ==> {
                &&& r == Err::<User, RepoError>(RepoError::UniqueConstraintViolation)
                &&& final(self)@ == old(self)@
            },
            r matches Ok(u) ==> u@.password_hash.len() > 0 && u@.password_hash
                != new_user.password@,
    {
        // Step 1: derive the verifier string; the plaintext is not used again.
        let password_hash: String = hasher.hash_password(new_user.password.as_str());

        // Step 2: one insert, refused whole if either column would be
        // duplicated, so no partial write is ever observable.
        let ghost s0: StoreView = self@;
        let n: usize = self.users.len();
        let mut i: usize = 0;
        while i < n
            invariant
                *self == *old(self),
                s0 == self@,
                wf_store(s0),
                n == self@.rows.len(),
                0 <= i <= n,
                forall|k: int| 0 <= k < i ==> (#[trigger] self@.rows[k]).username
                    != new_user.username@,
                forall|k: int| 0 <= k < i ==> (#[trigger] self@.rows[k]).email != new_user.email@,
            decreases n - i,
        {
            if self.users[i].username == new_user.username {
                proof {
                    assert(self@.rows[i as int].username == new_user.username@);
                    assert(has_username(s0.rows, new_user.username@));
                }
                return Err(RepoError::UniqueConstraintViolation);
            }
            if self.users[i].email == new_user.email {
                proof {
                    assert(self@.rows[i as int].email == new_user.email@);
                    assert(has_email(s0.rows, new_user.email@));
                }
                return Err(RepoError::UniqueConstraintViolation);
            }
            i = i + 1;
        }
        proof {
            assert(!has_username(s0.rows, new_user.username@));
            assert(!has_email(s0.rows, new_user.email@));
        }
        let user = User {
            id: self.next_id,
            username: new_user.username,
            email: new_user.email,
            password_hash: password_hash,
            created_at: self.clock,
        };
        let result: User = user.clone();
        self.users.push(user);
        self.next_id = self.next_id + 1;
        self.clock = self.clock + 1;
        proof {
            assert(result@ == created_row(
                s0,
                new_user.username@,
                new_user.email@,
                hash_of(new_user.password@),
            ));
            assert(self@.rows =~= s0.rows.push(result@));
            assert(self@ == inserted(
                s0,
                new_user.username@,
                new_user.email@,
                hash_of(new_user.password@),
            ));
            assert forall|j: int, k: int|
                0 <= j < k < self@.rows.len() implies self@.rows[j].username
                != self@.rows[k].username by {
                if k == self@.rows.len() - 1 {
                    assert(self@.rows[j] == s0.rows[j]);
                }
            };
            assert forall|j: int, k: int|
                0 <= j < k < self@.rows.len() implies self@.rows[j].email
                != self@.rows[k].email by {
                if k == self@.rows.len() - 1 {
                    assert(self@.rows[j] == s0.rows[j]);
                }
            };
            assert(wf_store(self@));
        }
        Ok(result)
    }

    /// Look a user up by one identifier, matched against both the username
    /// column and the email column.
    ///
    /// Exactly one matching row is returned as `Some`; no match is the
    /// explicit absent answer `None`, never an error. More than one match —
    /// possible only if the uniqueness invariant were violated — is refused
    /// as [`RepoError::AmbiguousResult`] rather than answered with an
    /// arbitrary row. The operation reads nothing but the table and writes
    /// nothing, so repeated lookups return identical data.
    pub fn find_by_username(&self, identifier: &str) -> (r: Result<Option<User>, RepoError>)
        ensures
            matching(self@.rows, identifier@).len() == 0 ==> r == Ok::<
                Option<User>,
                RepoError,
            >(None),
            matching(self@.rows, identifier@).len() == 1 ==> (r matches Ok(Some(u)) && u@
                == matching(self@.rows, identifier@)[0]),
            matching(self@.rows, identifier@).len() >= 2 ==> r == Err::<
                Option<User>,
                RepoError,
            >(RepoError::AmbiguousResult),
    {
        let ident: String = identifier.to_owned();
        let n: usize = self.users.len();
        let mut found: Option<usize> = None;
        let mut i: usize = 0;
        while i < n
            invariant
                ident@ == identifier@,
                n == self@.rows.len(),
                0 <= i <= n,
                match found {
                    Option::None => matching(self@.rows.take(i as int), identifier@).len() == 0,
                    Option::Some(j) => j < i && matching(self@.rows.take(i as int), identifier@)
                        =~= seq![self@.rows[j as int]],
                },
            decreases n - i,
        {
            let hit: bool = self.users[i].username == ident || self.users[i].email == ident;
            proof {
                assert(hit == row_matches(self@.rows[i as int], identifier@));
                lemma_matching_take_step(self@.rows, identifier@, i as int);
            }
            if hit {
                if found.is_some() {
                    proof {
                        assert(matching(self@.rows.take(i as int + 1), identifier@).len() == 2);
                        lemma_matching_prefix_len(self@.rows, identifier@, i as int + 1);
                    }
                    return Err(RepoError::AmbiguousResult);
                }
                found = Some(i);
            }
            i = i + 1;
        }
        proof {
            assert(self@.rows.take(n as int) =~= self@.rows);
        }
        match found {
            None => Ok(None),
            Some(j) => {
                let u: User = self.users[j].clone();
                proof {
                    assert(u@ == matching(self@.rows, identifier@)[0]);
                }
                Ok(Some(u))
            },
        }
    }
}

} // verus!
