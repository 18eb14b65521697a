//! The mathematical model of the user table.
//!
//! A [`StoreView`] is the image of the whole store: the persisted rows in
//! insertion order, together with the two server-side counters that assign
//! identifiers and creation stamps. Every contract of the executable
//! repository speaks in terms of this model.

use vstd::prelude::*;

verus! {

/// The image of one persisted user row.
#[verifier::ext_equal]
pub struct UserView {
    pub id: int,
    pub username: Seq<char>,
    pub email: Seq<char>,
    pub password_hash: Seq<char>,
    pub created_at: int,
}

/// The image of the whole store.
#[verifier::ext_equal]
pub struct StoreView {
    /// The persisted rows, in the order they were inserted.
    pub rows: Seq<UserView>,
    /// The next server-assigned identifier.
    pub next_id: int,
    /// The next server-assigned creation stamp.
    pub clock: int,
}

/// Some persisted row already carries this username.
pub open spec fn has_username(rows: Seq<UserView>, username: Seq<char>) -> bool {
    exists|j: int| 0 <= j < rows.len() && rows[j].username == username
}

/// Some persisted row already carries this email.
pub open spec fn has_email(rows: Seq<UserView>, email: Seq<char>) -> bool {
    exists|j: int| 0 <= j < rows.len() && rows[j].email == email
}

/// The uniqueness rule the table enforces on an insert: the new username and
/// the new email must each be absent from every persisted row.
pub open spec fn insert_allowed(s: StoreView, username: Seq<char>, email: Seq<char>) -> bool {
    &&& !has_username(s.rows, username)
    &&& !has_email(s.rows, email)
}

/// The row a successful insert persists: the caller's fields together with
/// the server-assigned identifier and creation stamp.
pub open spec fn created_row(
    s: StoreView,
    username: Seq<char>,
    email: Seq<char>,
    password_hash: Seq<char>,
) -> UserView {
    UserView {
        id: s.next_id,
        username: username,
        email: email,
        password_hash: password_hash,
        created_at: s.clock,
    }
}

/// The store after a successful insert: one more row, both counters advanced.
pub open spec fn inserted(
    s: StoreView,
    username: Seq<char>,
    email: Seq<char>,
    password_hash: Seq<char>,
) -> StoreView {
    StoreView {
        rows: s.rows.push(created_row(s, username, email, password_hash)),
        next_id: s.next_id + 1,
        clock: s.clock + 1,
    }
}

/// A row answers a lookup when the identifier equals its username or its
/// email: the one supplied string is matched against both columns.
pub open spec fn row_matches(row: UserView, identifier: Seq<char>) -> bool {
    row.username == identifier || row.email == identifier
}

/// The rows a lookup returns, in table order.
pub open spec fn matching(rows: Seq<UserView>, identifier: Seq<char>) -> Seq<UserView>
    decreases rows.len(),
{
    if rows.len() == 0 {
        Seq::empty()
    } else if row_matches(rows[0], identifier) {
        seq![rows[0]] + matching(rows.drop_first(), identifier)
    } else {
        matching(rows.drop_first(), identifier)
    }
}

/// How many persisted rows carry this username.
pub open spec fn count_username(rows: Seq<UserView>, username: Seq<char>) -> nat
    decreases rows.len(),
{
    if rows.len() == 0 {
        0
    } else {
        (if rows[0].username == username {
            1nat
        } else {
            0nat
        }) + count_username(rows.drop_first(), username)
    }
}

/// How many persisted rows carry this email.
pub open spec fn count_email(rows: Seq<UserView>, email: Seq<char>) -> nat
    decreases rows.len(),
{
    if rows.len() == 0 {
        0
    } else {
        (if rows[0].email == email {
            1nat
        } else {
            0nat
        }) + count_email(rows.drop_first(), email)
    }
}

/// Well-formedness of the store: usernames are pairwise distinct, emails are
/// pairwise distinct, and every assigned identifier and creation stamp lies
/// below its counter.
pub open spec fn wf_store(s: StoreView) -> bool {
    &&& forall|j: int, k: int|
        0 <= j < k < s.rows.len() ==> s.rows[j].username != s.rows[k].username
    &&& forall|j: int, k: int| 0 <= j < k < s.rows.len() ==> s.rows[j].email != s.rows[k].email
    &&& forall|j: int| 0 <= j < s.rows.len() ==> s.rows[j].id < s.next_id
    &&& forall|j: int| 0 <= j < s.rows.len() ==> s.rows[j].created_at < s.clock
}

/// `matching` distributes over concatenation.
pub proof fn lemma_matching_app(a: Seq<UserView>, b: Seq<UserView>, identifier: Seq<char>)
    ensures
        matching(a + b, identifier) == matching(a, identifier) + matching(b, identifier),
    decreases a.len(),
{
    if a.len() == 0 {
        assert(a + b =~= b);
        assert(matching(a, identifier) + matching(b, identifier) =~= matching(b, identifier));
    } else {
        assert((a + b).drop_first() =~= a.drop_first() + b);
        lemma_matching_app(a.drop_first(), b, identifier);
        if row_matches(a[0], identifier) {
            assert(seq![a[0]] + (matching(a.drop_first(), identifier) + matching(b, identifier))
                =~= (seq![a[0]] + matching(a.drop_first(), identifier)) + matching(b, identifier));
        }
    }
}

/// `matching` on a single row.
pub proof fn lemma_matching_singleton(row: UserView, identifier: Seq<char>)
    ensures
        matching(seq![row], identifier) == if row_matches(row, identifier) {
            seq![row]
        } else {
            Seq::<UserView>::empty()
        },
{
    assert(matching(Seq::<UserView>::empty(), identifier) =~= Seq::<UserView>::empty());
    assert(seq![row].drop_first() =~= Seq::<UserView>::empty());
    assert(seq![row][0] == row);
    if row_matches(row, identifier) {
        assert(matching(seq![row], identifier) =~= seq![row] + Seq::<UserView>::empty());
        assert(seq![row] + Seq::<UserView>::empty() =~= seq![row]);
    }
}

/// `matching` distributes over `push`.
pub proof fn lemma_matching_push(rows: Seq<UserView>, row: UserView, identifier: Seq<char>)
    ensures
        matching(rows.push(row), identifier) == if row_matches(row, identifier) {
            matching(rows, identifier).push(row)
        } else {
            matching(rows, identifier)
        },
{
    assert(rows.push(row) =~= rows + seq![row]);
    lemma_matching_app(rows, seq![row], identifier);
    lemma_matching_singleton(row, identifier);
    if row_matches(row, identifier) {
        assert(matching(rows, identifier) + seq![row] =~= matching(rows, identifier).push(row));
    } else {
        assert(matching(rows, identifier) + Seq::<UserView>::empty()
            =~= matching(rows, identifier));
    }
}

/// Extending a scanned prefix by one row extends its lookup result exactly
/// when that row matches.
pub proof fn lemma_matching_take_step(rows: Seq<UserView>, identifier: Seq<char>, i: int)
    requires
        0 <= i < rows.len(),
    ensures
        matching(rows.take(i + 1), identifier) == if row_matches(rows[i], identifier) {
            matching(rows.take(i), identifier).push(rows[i])
        } else {
            matching(rows.take(i), identifier)
        },
{
    assert(rows.take(i + 1) =~= rows.take(i).push(rows[i]));
    lemma_matching_push(rows.take(i), rows[i], identifier);
}

/// A prefix never matches more rows than the whole sequence.
pub proof fn lemma_matching_prefix_len(rows: Seq<UserView>, identifier: Seq<char>, n: int)
    requires
        0 <= n <= rows.len(),
    ensures
        matching(rows.take(n), identifier).len() <= matching(rows, identifier).len(),
{
    assert(rows =~= rows.take(n) + rows.skip(n));
    lemma_matching_app(rows.take(n), rows.skip(n), identifier);
}

/// An identifier that matches no row at all yields an empty lookup result.
pub proof fn lemma_no_match_empty(rows: Seq<UserView>, identifier: Seq<char>)
    requires
        forall|j: int| 0 <= j < rows.len() ==> !row_matches(#[trigger] rows[j], identifier),
    ensures
        matching(rows, identifier).len() == 0,
    decreases rows.len(),
{
    if rows.len() > 0 {
        assert(!row_matches(rows[0], identifier));
        assert(forall|j: int|
            0 <= j < rows.drop_first().len() ==> !row_matches(
                #[trigger] rows.drop_first()[j],
                identifier,
            ));
        lemma_no_match_empty(rows.drop_first(), identifier);
    }
}

/// `count_username` distributes over `push`.
pub proof fn lemma_count_username_push(rows: Seq<UserView>, row: UserView, username: Seq<char>)
    ensures
        count_username(rows.push(row), username) == count_username(rows, username) + (
        if row.username == username {
            1nat
        } else {
            0nat
        }),
    decreases rows.len(),
{
    if rows.len() == 0 {
        assert(rows.push(row).drop_first() =~= Seq::<UserView>::empty());
        assert(count_username(Seq::<UserView>::empty(), username) == 0);
        assert(rows.push(row)[0] == row);
    } else {
        assert(rows.push(row).drop_first() =~= rows.drop_first().push(row));
        assert(rows.push(row)[0] == rows[0]);
        lemma_count_username_push(rows.drop_first(), row, username);
    }
}

/// `count_email` distributes over `push`.
pub proof fn lemma_count_email_push(rows: Seq<UserView>, row: UserView, email: Seq<char>)
    ensures
        count_email(rows.push(row), email) == count_email(rows, email) + (
        if row.email == email {
            1nat
        } else {
            0nat
        }),
    decreases rows.len(),
{
    if rows.len() == 0 {
        assert(rows.push(row).drop_first() =~= Seq::<UserView>::empty());
        assert(count_email(Seq::<UserView>::empty(), email) == 0);
        assert(rows.push(row)[0] == row);
    } else {
        assert(rows.push(row).drop_first() =~= rows.drop_first().push(row));
        assert(rows.push(row)[0] == rows[0]);
        lemma_count_email_push(rows.drop_first(), row, email);
    }
}

/// A username is absent exactly when its row count is zero.
pub proof fn lemma_count_username_zero(rows: Seq<UserView>, username: Seq<char>)
    ensures
        count_username(rows, username) == 0 <==> !has_username(rows, username),
    decreases rows.len(),
{
    if rows.len() > 0 {
        lemma_count_username_zero(rows.drop_first(), username);
        if has_username(rows.drop_first(), username) {
            let j = choose|j: int|
                0 <= j < rows.drop_first().len() && rows.drop_first()[j].username == username;
            assert(rows[j + 1].username == username);
        }
        if has_username(rows, username) && rows[0].username != username {
            let j = choose|j: int| 0 <= j < rows.len() && rows[j].username == username;
            assert(rows.drop_first()[j - 1].username == username);
        }
    }
}

/// An email is absent exactly when its row count is zero.
pub proof fn lemma_count_email_zero(rows: Seq<UserView>, email: Seq<char>)
    ensures
        count_email(rows, email) == 0 <==> !has_email(rows, email),
    decreases rows.len(),
{
    if rows.len() > 0 {
        lemma_count_email_zero(rows.drop_first(), email);
        if has_email(rows.drop_first(), email) {
            let j = choose|j: int|
                0 <= j < rows.drop_first().len() && rows.drop_first()[j].email == email;
            assert(rows[j + 1].email == email);
        }
        if has_email(rows, email) && rows[0].email != email {
            let j = choose|j: int| 0 <= j < rows.len() && rows[j].email == email;
            assert(rows.drop_first()[j - 1].email == email);
        }
    }
}

} // verus!
