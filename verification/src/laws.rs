//! The cross-call guarantees of the store, proved once and for all over the
//! model. Together with the exact contracts of
//! [`crate::repo::UserRepository`], they pin down how consecutive operations
//! behave.

use crate::model::StoreView;
use crate::model::count_email;
use crate::model::count_username;
use crate::model::created_row;
use crate::model::has_email;
use crate::model::has_username;
use crate::model::insert_allowed;
use crate::model::inserted;
use crate::model::lemma_count_email_push;
use crate::model::lemma_count_email_zero;
use crate::model::lemma_count_username_push;
use crate::model::lemma_count_username_zero;
use crate::model::lemma_matching_push;
use crate::model::lemma_no_match_empty;
use crate::model::matching;
use crate::model::row_matches;
use crate::model::wf_store;
use vstd::prelude::*;

verus! {

/// After a user is created, a second create with the same username is
/// refused whatever email it carries, and the table holds exactly one row
/// with that username.
pub proof fn lemma_duplicate_username_rejected(
    s: StoreView,
    username: Seq<char>,
    email: Seq<char>,
    password_hash: Seq<char>,
)
    requires
        wf_store(s),
        insert_allowed(s, username, email),
    ensures
        forall|email2: Seq<char>|
            !insert_allowed(inserted(s, username, email, password_hash), username, email2),
        count_username(inserted(s, username, email, password_hash).rows, username) == 1,
{
    let row = created_row(s, username, email, password_hash);
    let s1 = inserted(s, username, email, password_hash);
    assert(s1.rows[s.rows.len() as int] == row);
    assert(has_username(s1.rows, username));
    lemma_count_username_push(s.rows, row, username);
    lemma_count_username_zero(s.rows, username);
}

/// After a user is created, a second create with the same email is refused
/// whatever username it carries, and the table holds exactly one row with
/// that email.
pub proof fn lemma_duplicate_email_rejected(
    s: StoreView,
    username: Seq<char>,
    email: Seq<char>,
    password_hash: Seq<char>,
)
    requires
        wf_store(s),
        insert_allowed(s, username, email),
    ensures
        forall|username2: Seq<char>|
            !insert_allowed(inserted(s, username, email, password_hash), username2, email),
        count_email(inserted(s, username, email, password_hash).rows, email) == 1,
{
    let row = created_row(s, username, email, password_hash);
    let s1 = inserted(s, username, email, password_hash);
    assert(s1.rows[s.rows.len() as int] == row);
    assert(has_email(s1.rows, email));
    lemma_count_email_push(s.rows, row, email);
    lemma_count_email_zero(s.rows, email);
}

/// After a user is created, looking its username up finds exactly that row.
///
/// The one extra hypothesis is that the new username is nobody's email: were
/// some existing row's email equal to it, the dual-column lookup would match
/// two rows and answer ambiguously instead.
pub proof fn lemma_find_after_create_by_username(
    s: StoreView,
    username: Seq<char>,
    email: Seq<char>,
    password_hash: Seq<char>,
)
    requires
        wf_store(s),
        insert_allowed(s, username, email),
        !has_email(s.rows, username),
    ensures
        matching(inserted(s, username, email, password_hash).rows, username) == seq![
            created_row(s, username, email, password_hash),
        ],
{
    let row = created_row(s, username, email, password_hash);
    assert forall|j: int| 0 <= j < s.rows.len() implies !row_matches(
        #[trigger] s.rows[j],
        username,
    ) by {
        if s.rows[j].username == username {
            assert(has_username(s.rows, username));
        }
        if s.rows[j].email == username {
            assert(has_email(s.rows, username));
        }
    };
    lemma_no_match_empty(s.rows, username);
    lemma_matching_push(s.rows, row, username);
    assert(matching(s.rows, username) =~= Seq::<crate::model::UserView>::empty());
    assert(matching(s.rows, username).push(row) =~= seq![row]);
}

/// After a user is created, looking its email up finds exactly that row —
/// the same single parameter is matched against the email column too.
///
/// The one extra hypothesis is that the new email is nobody's username, for
/// the symmetric reason.
pub proof fn lemma_find_after_create_by_email(
    s: StoreView,
    username: Seq<char>,
    email: Seq<char>,
    password_hash: Seq<char>,
)
    requires
        wf_store(s),
        insert_allowed(s, username, email),
        !has_username(s.rows, email),
    ensures
        matching(inserted(s, username, email, password_hash).rows, email) == seq![
            created_row(s, username, email, password_hash),
        ],
{
    let row = created_row(s, username, email, password_hash);
    assert forall|j: int| 0 <= j < s.rows.len() implies !row_matches(
        #[trigger] s.rows[j],
        email,
    ) by {
        if s.rows[j].username == email {
            assert(has_username(s.rows, email));
        }
        if s.rows[j].email == email {
            assert(has_email(s.rows, email));
        }
    };
    lemma_no_match_empty(s.rows, email);
    lemma_matching_push(s.rows, row, email);
    assert(matching(s.rows, email) =~= Seq::<crate::model::UserView>::empty());
    assert(matching(s.rows, email).push(row) =~= seq![row]);
}

/// An identifier that is nobody's username and nobody's email matches no
/// row: the lookup then answers with the explicit absent value, not with an
/// error.
pub proof fn lemma_unknown_identifier_absent(rows: Seq<crate::model::UserView>, identifier: Seq<char>)
    requires
        !has_username(rows, identifier),
        !has_email(rows, identifier),
    ensures
        matching(rows, identifier).len() == 0,
{
    assert forall|j: int| 0 <= j < rows.len() implies !row_matches(
        #[trigger] rows[j],
        identifier,
    ) by {
        if rows[j].username == identifier {
            assert(has_username(rows, identifier));
        }
        if rows[j].email == identifier {
            assert(has_email(rows, identifier));
        }
    };
    lemma_no_match_empty(rows, identifier);
}

} // verus!
