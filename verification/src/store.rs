//! The record store: one table per record kind.
//!
//! A [`Table`] holds rows in insertion order and never removes one; rows
//! are keyed by their identifier, which is unique within a table. Insert
//! refuses a duplicate identifier, replace swaps the row that carries the
//! given record's identifier, and lookup finds a row by identifier whether
//! or not it is soft-deleted.

use vstd::prelude::*;

use crate::ident::Id;

verus! {

/// Why a store operation failed: the identifier of a point lookup or a
/// replace was absent, or an insert or replace would break identifier
/// uniqueness or a referential rule.
#[derive(Clone, Copy, Debug, PartialEq, Eq, Structural)]
pub enum DbError {
    NotFound,
    ConstraintViolation,
}

/// A row of a table: something with an identifier and a soft-delete flag.
pub trait Record: Sized {
    /// The record's identifier.
    spec fn rid(&self) -> Id;

    /// The record's soft-delete flag.
    spec fn is_deleted(&self) -> bool;

    /// The identifier, as executable code reads it.
    fn key(&self) -> (k: Id)
        ensures
            k == self.rid(),
    ;
}

/// Whether some row of `rows` carries the identifier `id`.
pub open spec fn has_id<T: Record>(rows: Seq<T>, id: Id) -> bool {
    exists|i: int| 0 <= i < rows.len() && #[trigger] rows[i].rid() == id
}

/// Whether no two rows of `rows` share an identifier.
pub open spec fn unique_ids<T: Record>(rows: Seq<T>) -> bool {
    forall|i: int, j: int|
        0 <= i < j < rows.len() ==> #[trigger] rows[i].rid() != #[trigger] rows[j].rid()
}

/// Whether an optional reference is satisfied: it is absent, or it names
/// an identifier stored in `t`.
pub open spec fn opt_present<T: Record>(t: Table<T>, r: Option<Id>) -> bool {
    r matches Some(id) ==> t.contains_id(id)
}

/// One table of the store: rows in insertion order, identifiers unique.
pub struct Table<T> {
    rows: Vec<T>,
}

impl<T> View for Table<T> {
    type V = Seq<T>;

    closed spec fn view(&self) -> Seq<T> {
        self.rows@
    }
}

impl<T: Record> Table<T> {
    /// Identifier uniqueness, the table's invariant.
    pub open spec fn wf(self) -> bool {
        unique_ids(self@)
    }

    /// Whether a row with identifier `id` is stored.
    pub open spec fn contains_id(self, id: Id) -> bool {
        has_id(self@, id)
    }

    /// The position of the row with identifier `id` (meaningful only when
    /// `contains_id(id)` holds; unique when `wf()` holds too).
    pub open spec fn index_of(self, id: Id) -> int {
        choose|i: int| 0 <= i < self@.len() && #[trigger] self@[i].rid() == id
    }

    /// The stored row with identifier `id` (meaningful under the same
    /// conditions as `index_of`).
    pub open spec fn row_at(self, id: Id) -> T {
        self@[self.index_of(id)]
    }

    /// An empty table.
    pub fn new() -> (t: Table<T>)
        ensures
            t@ == Seq::<T>::empty(),
            t.wf(),
    {
        Table { rows: Vec::new() }
    }

    /// The position of the row with identifier `id`, if any.
    fn find(&self, id: Id) -> (r: Option<usize>)
        ensures
            match r {
                Some(i) => 0 <= i < self@.len() && self@[i as int].rid() == id,
                None => !self.contains_id(id),
            },
    {
        let mut i: usize = 0;
        while i < self.rows.len()
            invariant
                i <= self@.len(),
                forall|j: int| 0 <= j < i ==> #[trigger] self@[j].rid() != id,
            decreases self@.len() - i,
        {
            if self.rows[i].key() == id {
                return Some(i);
            }
            i += 1;
        }
        None
    }

    /// Whether a row with identifier `id` is stored.
    pub fn contains(&self, id: Id) -> (r: bool)
        ensures
            r == self.contains_id(id),
    {
        self.find(id).is_some()
    }

    /// Append a new row; refused when its identifier is already present.
    pub fn insert(&mut self, rec: T) -> (r: Result<(), DbError>)
        requires
            old(self).wf(),
        ensures
            final(self).wf(),
            match r {
                Ok(_) => !old(self).contains_id(rec.rid()) && final(self)@ == old(self)@.push(rec),
                Err(e) => {
                    &&& e == DbError::ConstraintViolation
                    &&& old(self).contains_id(rec.rid())
                    &&& *final(self) == *old(self)
                },
            },
    {
        if self.contains(rec.key()) {
            return Err(DbError::ConstraintViolation);
        }
        proof {
            let rows = self@;
            assert forall|i: int, j: int| 0 <= i < j < rows.push(rec).len() implies #[trigger] rows.push(
                rec,
            )[i].rid() != #[trigger] rows.push(rec)[j].rid() by {
                if j < rows.len() {
                    assert(rows[i].rid() != rows[j].rid());
                } else {
                    assert(rows.push(rec)[i] == rows[i]);
                    assert(!has_id(rows, rec.rid()));
                    assert(rows[i].rid() != rec.rid());
                }
            }
        }
        self.rows.push(rec);
        Ok(())
    }

    /// Replace the row that carries the given record's identifier; refused
    /// when no row carries it.
    pub fn replace(&mut self, rec: T) -> (r: Result<(), DbError>)
        requires
            old(self).wf(),
        ensures
            final(self).wf(),
            match r {
                Ok(_) => {
                    &&& old(self).contains_id(rec.rid())
                    &&& final(self)@ == old(self)@.update(old(self).index_of(rec.rid()), rec)
                },
                Err(e) => {
                    &&& e == DbError::NotFound
                    &&& !old(self).contains_id(rec.rid())
                    &&& *final(self) == *old(self)
                },
            },
    {
        let id = rec.key();
        match self.find(id) {
            Some(i) => {
                proof {
                    lemma_index_of_unique(*self, i as int, id);
                    let rows = self@;
                    let updated = rows.update(i as int, rec);
                    assert forall|p: int, q: int|
                        0 <= p < q < updated.len() implies #[trigger] updated[p].rid()
                        != #[trigger] updated[q].rid() by {
                        assert(rows[p].rid() != rows[q].rid());
                        assert(rows[i as int].rid() == rec.rid());
                    }
                }
                self.rows[i] = rec;
                Ok(())
            },
            None => Err(DbError::NotFound),
        }
    }

    /// Borrow the row with identifier `id`, if any.
    pub fn get(&self, id: Id) -> (r: Option<&T>)
        requires
            self.wf(),
        ensures
            match r {
                Some(row) => {
                    &&& self.contains_id(id)
                    &&& *row == self.row_at(id)
                    &&& row.rid() == id
                },
                None => !self.contains_id(id),
            },
    {
        match self.find(id) {
            Some(i) => {
                proof {
                    lemma_index_of_unique(*self, i as int, id);
                }
                Some(&self.rows[i])
            },
            None => None,
        }
    }

    /// The number of rows.
    pub fn len(&self) -> (n: usize)
        ensures
            n == self@.len(),
    {
        self.rows.len()
    }

    /// Borrow the row at position `i` of the storage order.
    pub fn at(&self, i: usize) -> (row: &T)
        requires
            i < self@.len(),
        ensures
            *row == self@[i as int],
    {
        &self.rows[i]
    }
}

/// Under identifier uniqueness, a position whose row carries `id` is the
/// position `index_of(id)` names.
pub proof fn lemma_index_of_unique<T: Record>(t: Table<T>, i: int, id: Id)
    requires
        t.wf(),
        0 <= i < t@.len(),
        t@[i].rid() == id,
    ensures
        t.contains_id(id),
        t.index_of(id) == i,
        t.row_at(id) == t@[i],
{
    assert(has_id(t@, id));
    let k = t.index_of(id);
    assert(0 <= k < t@.len() && t@[k].rid() == id);
    if k != i {
        if k < i {
            assert(t@[k].rid() != t@[i].rid());
        } else {
            assert(t@[i].rid() != t@[k].rid());
        }
    }
}

/// Growing a table by one row keeps every identifier it already had.
pub proof fn lemma_push_keeps_ids<T: Record>(rows: Seq<T>, rec: T, id: Id)
    requires
        has_id(rows, id),
    ensures
        has_id(rows.push(rec), id),
{
    let i = choose|i: int| 0 <= i < rows.len() && #[trigger] rows[i].rid() == id;
    assert(rows.push(rec)[i].rid() == id);
}

/// Replacing a row with one that carries the same identifier keeps the
/// table's identifier set exactly.
pub proof fn lemma_update_keeps_ids<T: Record>(rows: Seq<T>, i: int, rec: T, id: Id)
    requires
        0 <= i < rows.len(),
        rows[i].rid() == rec.rid(),
    ensures
        has_id(rows.update(i, rec), id) == has_id(rows, id),
{
    let updated = rows.update(i, rec);
    if has_id(rows, id) {
        let k = choose|k: int| 0 <= k < rows.len() && #[trigger] rows[k].rid() == id;
        if k == i {
            assert(updated[i].rid() == id);
        } else {
            assert(updated[k].rid() == id);
        }
    }
    if has_id(updated, id) {
        let k = choose|k: int| 0 <= k < updated.len() && #[trigger] updated[k].rid() == id;
        if k == i {
            assert(rows[i].rid() == id);
        } else {
            assert(rows[k].rid() == id);
        }
    }
}

/// Inserting a record and then looking its identifier up yields exactly the
/// inserted record; every other identifier still maps to the row it mapped
/// to before.
pub proof fn lemma_insert_then_lookup<T: Record>(pre: Table<T>, post: Table<T>, rec: T)
    requires
        pre.wf(),
        !pre.contains_id(rec.rid()),
        post@ == pre@.push(rec),
    ensures
        post.wf(),
        post.contains_id(rec.rid()),
        post.row_at(rec.rid()) == rec,
        forall|id: Id| id != rec.rid() ==> post.contains_id(id) == pre.contains_id(id),
        forall|id: Id|
            id != rec.rid() && pre.contains_id(id) ==> post.row_at(id) == pre.row_at(id),
{
    let n = pre@.len() as int;
    assert forall|i: int, j: int| 0 <= i < j < post@.len() implies #[trigger] post@[i].rid()
        != #[trigger] post@[j].rid() by {
        if j < n {
            assert(pre@[i].rid() != pre@[j].rid());
        } else {
            assert(post@[i] == pre@[i]);
            assert(pre@[i].rid() != rec.rid());
        }
    }
    assert(post@[n].rid() == rec.rid());
    lemma_index_of_unique(post, n, rec.rid());
    assert forall|id: Id| id != rec.rid() implies post.contains_id(id) == pre.contains_id(id) by {
        if pre.contains_id(id) {
            lemma_push_keeps_ids(pre@, rec, id);
        }
        if post.contains_id(id) {
            let k = choose|k: int| 0 <= k < post@.len() && #[trigger] post@[k].rid() == id;
            assert(k < n);
            assert(pre@[k].rid() == id);
        }
    }
    assert forall|id: Id| id != rec.rid() && pre.contains_id(id) implies post.row_at(id)
        == pre.row_at(id) by {
        let k = pre.index_of(id);
        assert(0 <= k < n && pre@[k].rid() == id);
        lemma_index_of_unique(pre, k, id);
        assert(post@[k] == pre@[k]);
        lemma_index_of_unique(post, k, id);
    }
}

/// Replacing the row under an identifier and then looking that identifier
/// up yields exactly the supplied record; no identifier appears or
/// disappears, and every other identifier still maps to the row it mapped
/// to before.
pub proof fn lemma_update_then_lookup<T: Record>(pre: Table<T>, post: Table<T>, rec: T)
    requires
        pre.wf(),
        pre.contains_id(rec.rid()),
        post@ == pre@.update(pre.index_of(rec.rid()), rec),
    ensures
        post.wf(),
        post.row_at(rec.rid()) == rec,
        forall|id: Id| post.contains_id(id) == pre.contains_id(id),
        forall|id: Id|
            id != rec.rid() && pre.contains_id(id) ==> post.row_at(id) == pre.row_at(id),
{
    let i = pre.index_of(rec.rid());
    assert(0 <= i < pre@.len() && pre@[i].rid() == rec.rid());
    assert forall|p: int, q: int| 0 <= p < q < post@.len() implies #[trigger] post@[p].rid()
        != #[trigger] post@[q].rid() by {
        assert(pre@[p].rid() != pre@[q].rid());
    }
    assert(post@[i].rid() == rec.rid());
    lemma_index_of_unique(post, i, rec.rid());
    assert forall|id: Id| post.contains_id(id) == pre.contains_id(id) by {
        lemma_update_keeps_ids(pre@, i, rec, id);
    }
    assert forall|id: Id| id != rec.rid() && pre.contains_id(id) implies post.row_at(id)
        == pre.row_at(id) by {
        let k = pre.index_of(id);
        assert(0 <= k < pre@.len() && pre@[k].rid() == id);
        lemma_index_of_unique(pre, k, id);
        assert(k != i);
        assert(post@[k] == pre@[k]);
        lemma_index_of_unique(post, k, id);
    }
}

/// Soft delete keeps the record visible: replacing the row under an
/// identifier with a copy whose deleted flag is set leaves a row under that
/// identifier, and the row found there is flagged deleted.
pub proof fn lemma_soft_delete_keeps_record<T: Record>(pre: Table<T>, post: Table<T>, rec: T)
    requires
        pre.wf(),
        pre.contains_id(rec.rid()),
        rec.is_deleted(),
        post@ == pre@.update(pre.index_of(rec.rid()), rec),
    ensures
        post.contains_id(rec.rid()),
        post.row_at(rec.rid()).is_deleted(),
{
    lemma_update_then_lookup(pre, post, rec);
}

} // verus!
