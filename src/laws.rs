//! Laws of the record store that relate several operations.
use vstd::prelude::*;
use crate::table::{created, deleted, has_id, lemma_deleted_matching, lemma_filter_push, lookup, unique_ids};
use crate::user::UserView;

verus! {

/// The rows after inserting each of `users`, in order, into `rows`.
pub open spec fn created_all(rows: Seq<UserView>, users: Seq<UserView>) -> Seq<UserView>
    decreases users.len(),
{
    if users.len() == 0 {
        rows
    } else {
        created(created_all(rows, users.drop_last()), users.last())
    }
}

/// No two of `users` share an identifier.
pub open spec fn distinct_ids(users: Seq<UserView>) -> bool {
    forall|i: int, j: int| 0 <= i < j < users.len() ==> #[trigger] users[i].id != #[trigger] users[j].id
}

/// No row has identifier `id` when no element carries it.
pub proof fn lemma_absent_id(rows: Seq<UserView>, id: u128)
    requires
        forall|k: int| 0 <= k < rows.len() ==> #[trigger] rows[k].id != id,
    ensures
        !has_id(rows, id),
    decreases rows.len(),
{
    reveal(Seq::filter);
    if rows.len() > 0 {
        let init = rows.drop_last();
        assert(init.push(rows.last()) =~= rows);
        assert forall|k: int| 0 <= k < init.len() implies #[trigger] init[k].id != id by {
            assert(init[k] == rows[k]);
        }
        lemma_absent_id(init, id);
        lemma_filter_push(init, rows.last(), |u: UserView| u.id == id);
    }
}

/// Inserting users with distinct identifiers into an empty store keeps each
/// of them, in the order of insertion.
pub proof fn lemma_created_all_distinct(users: Seq<UserView>)
    requires
        distinct_ids(users),
    ensures
        created_all(Seq::empty(), users) == users,
    decreases users.len(),
{
    if users.len() > 0 {
        let init = users.drop_last();
        let last = users.last();
        assert(distinct_ids(init)) by {
            assert forall|i: int, j: int| 0 <= i < j < init.len() implies #[trigger] init[i].id != #[trigger] init[j].id by {
                assert(init[i] == users[i] && init[j] == users[j]);
            }
        }
        lemma_created_all_distinct(init);
        assert forall|k: int| 0 <= k < init.len() implies #[trigger] init[k].id != last.id by {
            assert(init[k] == users[k]);
            assert(users[k].id != users[users.len() - 1].id);
        }
        lemma_absent_id(init, last.id);
        assert(init.push(last) =~= users);
    }
}

/// Round trip: once a record is created, looking up its identifier gives
/// back a record equal to it in every field.
pub proof fn law_create_then_get(rows: Seq<UserView>, u: UserView)
    requires
        unique_ids(rows),
    ensures
        !has_id(rows, u.id) ==> lookup(created(rows, u), u.id) == Some(u),
{
    lemma_filter_push(rows, u, |v: UserView| v.id == u.id);
}

/// List completeness: after creating users with distinct identifiers in an
/// empty store, the store lists exactly those records, whatever their order.
pub proof fn law_list_complete(users: Seq<UserView>)
    requires
        distinct_ids(users),
    ensures
        created_all(Seq::empty(), users).len() == users.len(),
        created_all(Seq::empty(), users).to_multiset() == users.to_multiset(),
{
    lemma_created_all_distinct(users);
}

/// Deleting twice is the same as deleting once, and after a delete no
/// record has that identifier. Delete itself never fails.
pub proof fn law_delete_idempotent(rows: Seq<UserView>, id: u128)
    ensures
        deleted(deleted(rows, id), id) == deleted(rows, id),
        lookup(deleted(rows, id), id) is None,
    decreases rows.len(),
{
    reveal(Seq::filter);
    lemma_deleted_matching(rows, id, id);
    if rows.len() > 0 {
        let init = rows.drop_last();
        let last = rows.last();
        assert(init.push(last) =~= rows);
        law_delete_idempotent(init, id);
        lemma_filter_push(init, last, |u: UserView| u.id != id);
        if last.id != id {
            lemma_filter_push(deleted(init, id), last, |u: UserView| u.id != id);
        }
    }
}

/// An identifier that none of the created records carries is not found.
pub proof fn law_unknown_id_not_found(users: Seq<UserView>, id: u128)
    requires
        distinct_ids(users),
        forall|k: int| 0 <= k < users.len() ==> #[trigger] users[k].id != id,
    ensures
        lookup(created_all(Seq::empty(), users), id) is None,
{
    lemma_created_all_distinct(users);
    lemma_absent_id(users, id);
}

/// Creating a second record with the same identifier is rejected (the
/// store's create fails exactly when the identifier is taken), and leaves
/// the store as the first create left it.
pub proof fn law_duplicate_id_rejected(rows: Seq<UserView>, u: UserView, v: UserView)
    requires
        unique_ids(rows),
        u.id == v.id,
    ensures
        has_id(created(rows, u), v.id),
        created(created(rows, u), v) == created(rows, u),
{
    lemma_filter_push(rows, u, |w: UserView| w.id == u.id);
}

} // verus!
