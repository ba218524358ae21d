//! Files: a stored document — a file name, a URL and its content.

use vstd::prelude::*;

use crate::db::Db;
use crate::ident::{fresh_id, Id};
use crate::store::{lemma_push_keeps_ids, lemma_update_keeps_ids, DbError, Record};
use crate::time::{now, Timestamp};

verus! {

/// A stored file.
#[derive(Debug)]
pub struct File {
    pub id: Id,
    pub filename: String,
    pub url: String,
    pub content: String,
    pub deleted: bool,
    pub created_at: Timestamp,
    pub updated_at: Timestamp,
    pub deleted_at: Timestamp,
}

impl Record for File {
    open spec fn rid(&self) -> Id {
        self.id
    }

    open spec fn is_deleted(&self) -> bool {
        self.deleted
    }

    fn key(&self) -> (k: Id) {
        self.id
    }
}

impl Clone for File {
    /// An exact copy, field for field.
    fn clone(&self) -> (r: Self)
        ensures
            r == *self,
    {
        File {
            id: self.id,
            filename: self.filename.clone(),
            url: self.url.clone(),
            content: self.content.clone(),
            deleted: self.deleted,
            created_at: self.created_at,
            updated_at: self.updated_at,
            deleted_at: self.deleted_at,
        }
    }
}

impl PartialEq for File {
    /// Record equality: every field agrees, with the creation and deletion
    /// timestamps compared at second precision and the update timestamp
    /// left out, since a replace refreshes it.
    fn eq(&self, other: &Self) -> (r: bool) {
        self.id == other.id && self.filename == other.filename && self.url == other.url
            && self.content == other.content && self.deleted == other.deleted
            && self.created_at.at_same_second(&other.created_at)
            && self.deleted_at.at_same_second(&other.deleted_at)
    }
}

impl vstd::std_specs::cmp::PartialEqSpecImpl for File {
    open spec fn obeys_eq_spec() -> bool {
        true
    }

    open spec fn eq_spec(&self, other: &Self) -> bool {
        &&& self.id == other.id
        &&& self.filename@ == other.filename@
        &&& self.url@ == other.url@
        &&& self.content@ == other.content@
        &&& self.deleted == other.deleted
        &&& self.created_at.same_second(other.created_at)
        &&& self.deleted_at.same_second(other.deleted_at)
    }
}

impl File {
    /// Construct a file record: a fresh identifier, the given business
    /// fields, not deleted, creation and update timestamps both set to
    /// the same current time, and `deleted_at` at the epoch sentinel.
    pub fn new(filename: String, url: String, content: String) -> (f: File)
        ensures
            f.filename == filename,
            f.url == url,
            f.content == content,
            !f.deleted,
            f.created_at == f.updated_at,
            f.deleted_at == (Timestamp { secs: 0, nanos: 0 }),
    {
        let created = now();
        File {
            id: fresh_id(),
            filename,
            url,
            content,
            deleted: false,
            created_at: created,
            updated_at: created,
            deleted_at: Timestamp::epoch(),
        }
    }

    /// The record's identifier.
    pub fn id(&self) -> (id: Id)
        ensures
            id == self.id,
    {
        self.id
    }

    /// Persist a new file record. Fails exactly when a record with the
    /// same identifier is already stored; on success the table grows by
    /// this record, which is also returned as stored.
    pub fn insert(db: &mut Db, rec: File) -> (r: Result<File, DbError>)
        requires
            old(db).wf(),
        ensures
            final(db).wf(),
            match r {
                Ok(c) => {
                    &&& !old(db).files.contains_id(rec.id)
                    &&& c == rec
                    &&& final(db).files@ == old(db).files@.push(rec)
                    &&& final(db).same_except_files(*old(db))
                },
                Err(e) => {
                    &&& e == DbError::ConstraintViolation
                    &&& old(db).files.contains_id(rec.id)
                    &&& *final(db) == *old(db)
                },
            },
    {
        let copy = rec.clone();
        match db.files.insert(rec) {
            Ok(_) => {
                proof {
                    lemma_files_grow(*old(db), *db, rec);
                }
                Ok(copy)
            },
            Err(e) => Err(e),
        }
    }

    /// Replace the stored record that carries this record's identifier
    /// with this record, refreshing its update timestamp. Fails exactly
    /// when no record with that identifier is stored; on success the
    /// record as stored — update timestamp included — is returned.
    pub fn update(db: &mut Db, rec: File) -> (r: Result<File, DbError>)
        requires
            old(db).wf(),
        ensures
            final(db).wf(),
            match r {
                Ok(c) => {
                    &&& old(db).files.contains_id(rec.id)
                    &&& c == (File { updated_at: c.updated_at, ..rec })
                    &&& final(db).files@ == old(db).files@.update(
                        old(db).files.index_of(rec.id),
                        c,
                    )
                    &&& final(db).same_except_files(*old(db))
                },
                Err(e) => {
                    &&& e == DbError::NotFound
                    &&& !old(db).files.contains_id(rec.id)
                    &&& *final(db) == *old(db)
                },
            },
    {
        let mut stored = rec;
        stored.updated_at = now();
        let copy = stored.clone();
        match db.files.replace(stored) {
            Ok(_) => {
                proof {
                    lemma_files_swap(*old(db), *db, copy);
                }
                Ok(copy)
            },
            Err(e) => Err(e),
        }
    }

    /// Fetch the stored record with the given identifier, soft-deleted or
    /// not. Fails exactly when no record carries it.
    pub fn get_one_by_id(db: &Db, file_id: Id) -> (r: Result<File, DbError>)
        requires
            db.wf(),
        ensures
            match r {
                Ok(c) => {
                    &&& db.files.contains_id(file_id)
                    &&& c == db.files.row_at(file_id)
                },
                Err(e) => {
                    &&& e == DbError::NotFound
                    &&& !db.files.contains_id(file_id)
                },
            },
    {
        match db.files.get(file_id) {
            Some(row) => Ok(row.clone()),
            None => Err(DbError::NotFound),
        }
    }
}

/// Growing the file table keeps every reference into it satisfied.
proof fn lemma_files_grow(pre: Db, post: Db, rec: File)
    requires
        pre.wf(),
        post.files@ == pre.files@.push(rec),
        post.same_except_files(pre),
    ensures
        post.refs_ok(),
{
    assert forall|i: int|
        0 <= i < post.entities_history@.len() implies (
    #[trigger] post.entities_history@[i]).refs_present(post) by {
        let h = post.entities_history@[i];
        assert(h.refs_present(pre));
        lemma_push_keeps_ids(pre.files@, rec, h.file_id);
    }
    assert forall|i: int|
        0 <= i < post.entities_files@.len() implies (
    #[trigger] post.entities_files@[i]).refs_present(post) by {
        let l = post.entities_files@[i];
        assert(l.refs_present(pre));
        lemma_push_keeps_ids(pre.files@, rec, l.file_id);
    }
}

/// Replacing a file row by one with the same identifier keeps every
/// reference into the table satisfied.
proof fn lemma_files_swap(pre: Db, post: Db, rec: File)
    requires
        pre.wf(),
        pre.files.contains_id(rec.id),
        post.files@ == pre.files@.update(pre.files.index_of(rec.id), rec),
        post.same_except_files(pre),
    ensures
        post.refs_ok(),
{
    let i = pre.files.index_of(rec.id);
    assert(0 <= i < pre.files@.len() && pre.files@[i].rid() == rec.id);
    assert forall|j: int|
        0 <= j < post.entities_history@.len() implies (
    #[trigger] post.entities_history@[j]).refs_present(post) by {
        let h = post.entities_history@[j];
        assert(h.refs_present(pre));
        lemma_update_keeps_ids(pre.files@, i, rec, h.file_id);
    }
    assert forall|j: int|
        0 <= j < post.entities_files@.len() implies (
    #[trigger] post.entities_files@[j]).refs_present(post) by {
        let l = post.entities_files@[j];
        assert(l.refs_present(pre));
        lemma_update_keeps_ids(pre.files@, i, rec, l.file_id);
    }
}

} // verus!
