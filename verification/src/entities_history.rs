//! History entries: the audit trail. Each entry records an action code
//! against some record, the file involved and the user who acted.

use vstd::prelude::*;

use crate::db::Db;
use crate::ident::{fresh_id, Id};
use crate::store::{DbError, Record};
use crate::time::{now, Timestamp};

verus! {

/// An audit-trail entry.
#[derive(Debug)]
pub struct EntitiesHistory {
    pub id: Id,
    pub entity_id: Id,
    pub action_id: i16,
    pub file_id: Id,
    pub user_id: Id,
    pub deleted: bool,
    pub created_at: Timestamp,
    pub updated_at: Timestamp,
    pub deleted_at: Timestamp,
}

impl Record for EntitiesHistory {
    open spec fn rid(&self) -> Id {
        self.id
    }

    open spec fn is_deleted(&self) -> bool {
        self.deleted
    }

    fn key(&self) -> (k: Id) {
        self.id
    }
}

impl Clone for EntitiesHistory {
    /// An exact copy, field for field.
    fn clone(&self) -> (r: Self)
        ensures
            r == *self,
    {
        EntitiesHistory {
            id: self.id,
            entity_id: self.entity_id,
            action_id: self.action_id,
            file_id: self.file_id,
            user_id: self.user_id,
            deleted: self.deleted,
            created_at: self.created_at,
            updated_at: self.updated_at,
            deleted_at: self.deleted_at,
        }
    }
}

impl PartialEq for EntitiesHistory {
    /// Record equality: every field agrees, with timestamps compared at
    /// second precision only.
    fn eq(&self, other: &Self) -> (r: bool) {
        self.id == other.id && self.entity_id == other.entity_id && self.action_id
            == other.action_id && self.file_id == other.file_id && self.user_id == other.user_id
            && self.deleted == other.deleted && self.created_at.at_same_second(&other.created_at)
            && self.updated_at.at_same_second(&other.updated_at) && self.deleted_at.at_same_second(
            &other.deleted_at,
        )
    }
}

impl vstd::std_specs::cmp::PartialEqSpecImpl for EntitiesHistory {
    open spec fn obeys_eq_spec() -> bool {
        true
    }

    open spec fn eq_spec(&self, other: &Self) -> bool {
        &&& self.id == other.id
        &&& self.entity_id == other.entity_id
        &&& self.action_id == other.action_id
        &&& self.file_id == other.file_id
        &&& self.user_id == other.user_id
        &&& self.deleted == other.deleted
        &&& self.created_at.same_second(other.created_at)
        &&& self.updated_at.same_second(other.updated_at)
        &&& self.deleted_at.same_second(other.deleted_at)
    }
}

impl EntitiesHistory {
    /// The references this record makes, each satisfied in `db`: the
    /// required file and user references. The record the entry is about
    /// may be of any kind, so that reference is not constrained.
    pub open spec fn refs_present(self, db: Db) -> bool {
        &&& db.files.contains_id(self.file_id)
        &&& db.users.contains_id(self.user_id)
    }

    /// Construct a history entry: a fresh identifier, the given action
    /// and references, not deleted, creation and update timestamps both
    /// set to the same current time, and `deleted_at` at the epoch
    /// sentinel.
    pub fn new(entity_id: Id, action_id: i16, file_id: Id, user_id: Id) -> (h: EntitiesHistory)
        ensures
            h.entity_id == entity_id,
            h.action_id == action_id,
            h.file_id == file_id,
            h.user_id == user_id,
            !h.deleted,
            h.created_at == h.updated_at,
            h.deleted_at == (Timestamp { secs: 0, nanos: 0 }),
    {
        let created = now();
        EntitiesHistory {
            id: fresh_id(),
            entity_id,
            action_id,
            file_id,
            user_id,
            deleted: false,
            created_at: created,
            updated_at: created,
            deleted_at: Timestamp::epoch(),
        }
    }

    /// The record's identifier.
    pub fn id(&self) -> (id: Id)
        ensures
            id == self.id,
    {
        self.id
    }

    /// Persist a new history entry. Fails exactly when a record with the
    /// same identifier is already stored or the file or user it
    /// references is not; on success the table grows by this record,
    /// which is also returned as stored.
    pub fn insert(db: &mut Db, rec: EntitiesHistory) -> (r: Result<EntitiesHistory, DbError>)
        requires
            old(db).wf(),
        ensures
            final(db).wf(),
            match r {
                Ok(c) => {
                    &&& !old(db).entities_history.contains_id(rec.id)
                    &&& rec.refs_present(*old(db))
                    &&& c == rec
                    &&& final(db).entities_history@ == old(db).entities_history@.push(rec)
                    &&& final(db).same_except_entities_history(*old(db))
                },
                Err(e) => {
                    &&& e == DbError::ConstraintViolation
                    &&& (old(db).entities_history.contains_id(rec.id) || !rec.refs_present(
                        *old(db),
                    ))
                    &&& *final(db) == *old(db)
                },
            },
    {
        if !db.files.contains(rec.file_id) {
            return Err(DbError::ConstraintViolation);
        }
        if !db.users.contains(rec.user_id) {
            return Err(DbError::ConstraintViolation);
        }
        let copy = rec.clone();
        match db.entities_history.insert(rec) {
            Ok(_) => {
                proof {
                    lemma_history_keep(*old(db), *db);
                }
                Ok(copy)
            },
            Err(e) => Err(e),
        }
    }

    /// Fetch the stored record with the given identifier, soft-deleted or
    /// not. Fails exactly when no record carries it.
    pub fn get_one_by_id(db: &Db, enthist_id: Id) -> (r: Result<EntitiesHistory, DbError>)
        requires
            db.wf(),
        ensures
            match r {
                Ok(c) => {
                    &&& db.entities_history.contains_id(enthist_id)
                    &&& c == db.entities_history.row_at(enthist_id)
                },
                Err(e) => {
                    &&& e == DbError::NotFound
                    &&& !db.entities_history.contains_id(enthist_id)
                },
            },
    {
        match db.entities_history.get(enthist_id) {
            Some(row) => Ok(row.clone()),
            None => Err(DbError::NotFound),
        }
    }
}

/// A change that only touches the history table, where every changed or
/// added row has its file and user references checked, keeps every
/// referential rule: no other table refers to history entries.
proof fn lemma_history_keep(pre: Db, post: Db)
    requires
        pre.wf(),
        post.same_except_entities_history(pre),
        forall|i: int|
            0 <= i < post.entities_history@.len() ==> {
                let h = #[trigger] post.entities_history@[i];
                post.files.contains_id(h.file_id) && post.users.contains_id(h.user_id)
            },
    ensures
        post.refs_ok(),
{
}

} // verus!
