//! Notes: free-text remarks a user attaches to some record.

use vstd::prelude::*;

use crate::db::Db;
use crate::ident::{fresh_id, Id};
use crate::store::{DbError, Record};
use crate::time::{now, Timestamp};

verus! {

/// A note attached to a record.
#[derive(Debug)]
pub struct EntitiesNote {
    pub id: Id,
    pub entity_id: Id,
    pub user_id: Id,
    pub note: String,
    pub deleted: bool,
    pub created_at: Timestamp,
    pub updated_at: Timestamp,
    pub deleted_at: Timestamp,
}

impl Record for EntitiesNote {
    open spec fn rid(&self) -> Id {
        self.id
    }

    open spec fn is_deleted(&self) -> bool {
        self.deleted
    }

    fn key(&self) -> (k: Id) {
        self.id
    }
}

impl Clone for EntitiesNote {
    /// An exact copy, field for field.
    fn clone(&self) -> (r: Self)
        ensures
            r == *self,
    {
        EntitiesNote {
            id: self.id,
            entity_id: self.entity_id,
            user_id: self.user_id,
            note: self.note.clone(),
            deleted: self.deleted,
            created_at: self.created_at,
            updated_at: self.updated_at,
            deleted_at: self.deleted_at,
        }
    }
}

impl PartialEq for EntitiesNote {
    /// Record equality: every field agrees, with the creation and deletion
    /// timestamps compared at second precision and the update timestamp
    /// left out, since a replace refreshes it.
    fn eq(&self, other: &Self) -> (r: bool) {
        self.id == other.id && self.entity_id == other.entity_id && self.user_id == other.user_id
            && self.note == other.note && self.deleted == other.deleted
            && self.created_at.at_same_second(&other.created_at)
            && self.deleted_at.at_same_second(&other.deleted_at)
    }
}

impl vstd::std_specs::cmp::PartialEqSpecImpl for EntitiesNote {
    open spec fn obeys_eq_spec() -> bool {
        true
    }

    open spec fn eq_spec(&self, other: &Self) -> bool {
        &&& self.id == other.id
        &&& self.entity_id == other.entity_id
        &&& self.user_id == other.user_id
        &&& self.note@ == other.note@
        &&& self.deleted == other.deleted
        &&& self.created_at.same_second(other.created_at)
        &&& self.deleted_at.same_second(other.deleted_at)
    }
}

impl EntitiesNote {
    /// The references this record makes, each satisfied in `db`: the
    /// required user reference. The record the note is about may be of
    /// any kind, so that reference is not constrained.
    pub open spec fn refs_present(self, db: Db) -> bool {
        db.users.contains_id(self.user_id)
    }

    /// Construct a note: a fresh identifier, the given references and
    /// text, not deleted, creation and update timestamps both set to the
    /// same current time, and `deleted_at` at the epoch sentinel.
    pub fn new(entity_id: Id, user_id: Id, note: String) -> (n: EntitiesNote)
        ensures
            n.entity_id == entity_id,
            n.user_id == user_id,
            n.note == note,
            !n.deleted,
            n.created_at == n.updated_at,
            n.deleted_at == (Timestamp { secs: 0, nanos: 0 }),
    {
        let created = now();
        EntitiesNote {
            id: fresh_id(),
            entity_id,
            user_id,
            note,
            deleted: false,
            created_at: created,
            updated_at: created,
            deleted_at: Timestamp::epoch(),
        }
    }

    /// The record's identifier.
    pub fn id(&self) -> (id: Id)
        ensures
            id == self.id,
    {
        self.id
    }

    /// Persist a new note. Fails exactly when a record with the same
    /// identifier is already stored or the user it references is not; on
    /// success the table grows by this record, which is also returned as
    /// stored.
    pub fn insert(db: &mut Db, rec: EntitiesNote) -> (r: Result<EntitiesNote, DbError>)
        requires
            old(db).wf(),
        ensures
            final(db).wf(),
            match r {
                Ok(c) => {
                    &&& !old(db).entities_notes.contains_id(rec.id)
                    &&& rec.refs_present(*old(db))
                    &&& c == rec
                    &&& final(db).entities_notes@ == old(db).entities_notes@.push(rec)
                    &&& final(db).same_except_entities_notes(*old(db))
                },
                Err(e) => {
                    &&& e == DbError::ConstraintViolation
                    &&& (old(db).entities_notes.contains_id(rec.id) || !rec.refs_present(
                        *old(db),
                    ))
                    &&& *final(db) == *old(db)
                },
            },
    {
        if !db.users.contains(rec.user_id) {
            return Err(DbError::ConstraintViolation);
        }
        let copy = rec.clone();
        match db.entities_notes.insert(rec) {
            Ok(_) => {
                proof {
                    lemma_notes_keep(*old(db), *db);
                }
                Ok(copy)
            },
            Err(e) => Err(e),
        }
    }

    /// Replace the stored record that carries this record's identifier
    /// with this record, refreshing its update timestamp. Fails when no
    /// record with that identifier is stored or the user it references is
    /// not; on success the record as stored — update timestamp included —
    /// is returned.
    pub fn update(db: &mut Db, rec: EntitiesNote) -> (r: Result<EntitiesNote, DbError>)
        requires
            old(db).wf(),
        ensures
            final(db).wf(),
            match r {
                Ok(c) => {
                    &&& old(db).entities_notes.contains_id(rec.id)
                    &&& rec.refs_present(*old(db))
                    &&& c == (EntitiesNote { updated_at: c.updated_at, ..rec })
                    &&& final(db).entities_notes@ == old(db).entities_notes@.update(
                        old(db).entities_notes.index_of(rec.id),
                        c,
                    )
                    &&& final(db).same_except_entities_notes(*old(db))
                },
                Err(e) => {
                    &&& *final(db) == *old(db)
                    &&& match e {
                        DbError::NotFound => !old(db).entities_notes.contains_id(rec.id),
                        DbError::ConstraintViolation => old(db).entities_notes.contains_id(rec.id)
                            && !rec.refs_present(*old(db)),
                    }
                },
            },
    {
        if !db.entities_notes.contains(rec.key()) {
            return Err(DbError::NotFound);
        }
        if !db.users.contains(rec.user_id) {
            return Err(DbError::ConstraintViolation);
        }
        let mut stored = rec;
        stored.updated_at = now();
        let copy = stored.clone();
        match db.entities_notes.replace(stored) {
            Ok(_) => {
                proof {
                    lemma_notes_keep(*old(db), *db);
                }
                Ok(copy)
            },
            Err(e) => Err(e),
        }
    }

    /// Fetch the stored record with the given identifier, soft-deleted or
    /// not. Fails exactly when no record carries it.
    pub fn get_one_by_id(db: &Db, entnote_id: Id) -> (r: Result<EntitiesNote, DbError>)
        requires
            db.wf(),
        ensures
            match r {
                Ok(c) => {
                    &&& db.entities_notes.contains_id(entnote_id)
                    &&& c == db.entities_notes.row_at(entnote_id)
                },
                Err(e) => {
                    &&& e == DbError::NotFound
                    &&& !db.entities_notes.contains_id(entnote_id)
                },
            },
    {
        match db.entities_notes.get(entnote_id) {
            Some(row) => Ok(row.clone()),
            None => Err(DbError::NotFound),
        }
    }
}

/// A change that only touches the note table, where every changed or
/// added row has its user reference checked, keeps every referential
/// rule: no other table refers to notes.
proof fn lemma_notes_keep(pre: Db, post: Db)
    requires
        pre.wf(),
        post.same_except_entities_notes(pre),
        forall|i: int|
            0 <= i < post.entities_notes@.len() ==> post.users.contains_id(
                (#[trigger] post.entities_notes@[i]).user_id,
            ),
    ensures
        post.refs_ok(),
{
}

} // verus!
