use vstd::prelude::*;
use crate::error::StoreError;
use crate::outcome::{lookup_outcome, views};
use crate::user::{User, UserView};

verus! {

/// The rows whose identifier is `id`, in stored order.
pub open spec fn matching(rows: Seq<UserView>, id: u128) -> Seq<UserView> {
    rows.filter(|u: UserView| u.id == id)
}

/// The rows that remain once every row with identifier `id` is removed.
pub open spec fn deleted(rows: Seq<UserView>, id: u128) -> Seq<UserView> {
    rows.filter(|u: UserView| u.id != id)
}

/// Some row has identifier `id`.
pub open spec fn has_id(rows: Seq<UserView>, id: u128) -> bool {
    matching(rows, id).len() > 0
}

/// The row with identifier `id`, if there is one.
pub open spec fn lookup(rows: Seq<UserView>, id: u128) -> Option<UserView> {
    if has_id(rows, id) {
        Some(matching(rows, id)[0])
    } else {
        None
    }
}

/// No identifier is held by more than one row.
pub open spec fn unique_ids(rows: Seq<UserView>) -> bool {
    forall|id: u128| #[trigger] matching(rows, id).len() <= 1
}

/// The rows after inserting `u`: unchanged when its identifier is taken.
pub open spec fn created(rows: Seq<UserView>, u: UserView) -> Seq<UserView> {
    if has_id(rows, u.id) {
        rows
    } else {
        rows.push(u)
    }
}

/// Filtering a sequence with one more element at its end.
pub proof fn lemma_filter_push(s: Seq<UserView>, x: UserView, p: spec_fn(UserView) -> bool)
    ensures
        s.push(x).filter(p) == (if p(x) { s.filter(p).push(x) } else { s.filter(p) }),
{
    reveal(Seq::filter);
    assert(s.push(x).drop_last() =~= s);
}

/// The views of a sequence with one more record at its end.
pub proof fn lemma_views_push(s: Seq<User>, x: User)
    ensures
        views(s.push(x)) == views(s).push(x@),
{
    assert(views(s.push(x)) =~= views(s).push(x@));
}

/// A record store held in memory: a sequence of user rows in which no two
/// rows share an identifier.
pub struct UserTable {
    rows: Vec<User>,
}

impl View for UserTable {
    type V = Seq<UserView>;

    closed spec fn view(&self) -> Seq<UserView> {
        views(self.rows@)
    }
}

impl UserTable {
    /// The table's invariant: identifiers are unique.
    pub open spec fn wf(&self) -> bool {
        unique_ids(self@)
    }

    /// An empty table.
    pub fn new() -> (r: UserTable)
        ensures
            r@ == Seq::<UserView>::empty(),
            r.wf(),
    {
        let r = UserTable { rows: Vec::new() };
        proof {
            assert(r@ =~= Seq::<UserView>::empty());
            assert forall|id: u128| #[trigger] matching(r@, id).len() <= 1 by {
                reveal(Seq::filter);
            }
        }
        r
    }

    /// Copies of the rows whose identifier is `id` (when `equal`) or is not
    /// `id` (otherwise), in stored order.
    fn rows_where(&self, id: u128, equal: bool) -> (r: Vec<User>)
        ensures
            views(r@) == (if equal { matching(self@, id) } else { deleted(self@, id) }),
    {
        let mut out: Vec<User> = Vec::new();
        let mut i: usize = 0;
        proof {
            reveal(Seq::filter);
            assert(views(out@) =~= Seq::<UserView>::empty());
        }
        while i < self.rows.len()
            invariant
                i <= self.rows@.len(),
                views(out@) == (if equal {
                    matching(views(self.rows@.subrange(0, i as int)), id)
                } else {
                    deleted(views(self.rows@.subrange(0, i as int)), id)
                }),
            decreases self.rows@.len() - i,
        {
            let u = &self.rows[i];
            let ghost before = views(self.rows@.subrange(0, i as int));
            proof {
                assert(self.rows@.subrange(0, i + 1) =~= self.rows@.subrange(0, i as int).push(*u));
                lemma_views_push(self.rows@.subrange(0, i as int), *u);
                lemma_filter_push(before, u@, |v: UserView| v.id == id);
                lemma_filter_push(before, u@, |v: UserView| v.id != id);
            }
            if (u.id == id) == equal {
                let c = u.duplicate();
                proof {
                    lemma_views_push(out@, c);
                }
                out.push(c);
            }
            i += 1;
        }
        proof {
            assert(self.rows@.subrange(0, self.rows@.len() as int) =~= self.rows@);
        }
        out
    }

    /// Every row, in stored order.
    pub fn get_users(&self) -> (r: Vec<User>)
        ensures
            views(r@) == self@,
    {
        let mut out: Vec<User> = Vec::new();
        let mut i: usize = 0;
        proof {
            assert(views(out@) =~= views(self.rows@.subrange(0, 0)));
        }
        while i < self.rows.len()
            invariant
                i <= self.rows@.len(),
                views(out@) == views(self.rows@.subrange(0, i as int)),
            decreases self.rows@.len() - i,
        {
            let c = self.rows[i].duplicate();
            proof {
                lemma_views_push(out@, c);
                assert(views(self.rows@.subrange(0, i + 1)) =~= views(out@).push(c@));
            }
            out.push(c);
            i += 1;
        }
        proof {
            assert(self.rows@.subrange(0, self.rows@.len() as int) =~= self.rows@);
        }
        out
    }

    /// Inserts `user`. Fails with a storage error, and leaves the table as it
    /// was, when a row already has its identifier.
    pub fn create_user(&mut self, user: User) -> (r: Result<(), StoreError>)
        requires
            old(self).wf(),
        ensures
            final(self).wf(),
            final(self)@ == created(old(self)@, user@),
            r is Err <==> has_id(old(self)@, user.id),
            r is Err ==> r->Err_0 is Storage,
    {
        let taken = self.rows_where(user.id, true);
        if taken.len() > 0 {
            Err(StoreError::Storage(String::from_str("UNIQUE constraint failed: user.id")))
        } else {
            let ghost before = self@;
            proof {
                lemma_views_push(self.rows@, user);
                assert forall|id: u128| #[trigger] matching(before.push(user@), id).len() <= 1 by {
                    lemma_filter_push(before, user@, |u: UserView| u.id == id);
                    assert(matching(before, id).len() <= 1);
                    assert(id == user.id ==> matching(before, id).len() == 0);
                }
            }
            self.rows.push(user);
            Ok(())
        }
    }

    /// The row with identifier `id`, or `NotFound` when there is none.
    pub fn get_user_by_id(&self, id: u128) -> (r: Result<User, StoreError>)
        requires
            self.wf(),
        ensures
            match lookup(self@, id) {
                Some(u) => r is Ok && r->Ok_0@ == u,
                None => r is Err && r->Err_0 is NotFound,
            },
    {
        let found = self.rows_where(id, true);
        proof {
            assert(matching(self@, id).len() <= 1);
        }
        lookup_outcome(found)
    }

    /// Removes the row with identifier `id`. Succeeds whether or not such a
    /// row existed.
    pub fn delete_user(&mut self, id: u128) -> (r: Result<(), StoreError>)
        requires
            old(self).wf(),
        ensures
            final(self).wf(),
            final(self)@ == deleted(old(self)@, id),
            r is Ok,
    {
        let kept = self.rows_where(id, false);
        proof {
            assert forall|x: u128| #[trigger] matching(views(kept@), x).len() <= 1 by {
                lemma_deleted_matching(self@, id, x);
                assert(matching(self@, x).len() <= 1);
            }
        }
        self.rows = kept;
        Ok(())
    }
}

/// What deleting `id` leaves among the rows with identifier `x`: nothing
/// when `x` is `id`, all of them otherwise.
pub proof fn lemma_deleted_matching(rows: Seq<UserView>, id: u128, x: u128)
    ensures
        matching(deleted(rows, id), x) == (if x == id { Seq::<UserView>::empty() } else { matching(rows, x) }),
    decreases rows.len(),
{
    reveal(Seq::filter);
    if rows.len() == 0 {
        assert(matching(deleted(rows, id), x) =~= Seq::<UserView>::empty());
    } else {
        let init = rows.drop_last();
        let last = rows.last();
        assert(init.push(last) =~= rows);
        lemma_deleted_matching(init, id, x);
        lemma_filter_push(init, last, |u: UserView| u.id != id);
        lemma_filter_push(init, last, |u: UserView| u.id == x);
        if last.id != id {
            lemma_filter_push(deleted(init, id), last, |u: UserView| u.id == x);
        }
    }
}

} // verus!
