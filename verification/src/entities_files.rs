//! File links: the junction that attaches a stored file to any other
//! record. A link is keyed by the pair of the file's identifier and the
//! linked record's identifier, so one file can be attached to many
//! records and one record can carry many files.

use vstd::prelude::*;

use crate::db::Db;
use crate::ident::Id;
use crate::store::DbError;
use crate::time::{now, Timestamp};

verus! {

/// A link between a file and some other record.
#[derive(Debug)]
pub struct EntitiesFile {
    pub file_id: Id,
    pub entity_id: Id,
    pub deleted: bool,
    pub created_at: Timestamp,
    pub updated_at: Timestamp,
    pub deleted_at: Timestamp,
}

/// Whether some row of `rows` links `file_id` to `entity_id`.
pub open spec fn has_link(rows: Seq<EntitiesFile>, file_id: Id, entity_id: Id) -> bool {
    exists|i: int|
        0 <= i < rows.len() && (#[trigger] rows[i]).file_id == file_id && rows[i].entity_id
            == entity_id
}

/// Whether no two rows of `rows` link the same file to the same record.
pub open spec fn unique_links(rows: Seq<EntitiesFile>) -> bool {
    forall|i: int, j: int|
        0 <= i < j < rows.len() ==> ((#[trigger] rows[i]).file_id != (#[trigger] rows[j]).file_id
            || rows[i].entity_id != rows[j].entity_id)
}

impl Clone for EntitiesFile {
    /// An exact copy, field for field.
    fn clone(&self) -> (r: Self)
        ensures
            r == *self,
    {
        EntitiesFile {
            file_id: self.file_id,
            entity_id: self.entity_id,
            deleted: self.deleted,
            created_at: self.created_at,
            updated_at: self.updated_at,
            deleted_at: self.deleted_at,
        }
    }
}

impl PartialEq for EntitiesFile {
    /// Record equality: every field agrees, with timestamps compared at
    /// second precision only.
    fn eq(&self, other: &Self) -> (r: bool) {
        self.file_id == other.file_id && self.entity_id == other.entity_id && self.deleted
            == other.deleted && self.created_at.at_same_second(&other.created_at)
            && self.updated_at.at_same_second(&other.updated_at) && self.deleted_at.at_same_second(
            &other.deleted_at,
        )
    }
}

impl vstd::std_specs::cmp::PartialEqSpecImpl for EntitiesFile {
    open spec fn obeys_eq_spec() -> bool {
        true
    }

    open spec fn eq_spec(&self, other: &Self) -> bool {
        &&& self.file_id == other.file_id
        &&& self.entity_id == other.entity_id
        &&& self.deleted == other.deleted
        &&& self.created_at.same_second(other.created_at)
        &&& self.updated_at.same_second(other.updated_at)
        &&& self.deleted_at.same_second(other.deleted_at)
    }
}

impl EntitiesFile {
    /// The references this record makes, each satisfied in `db`: the
    /// required file reference. The record the file is linked to may be
    /// of any kind, so that reference is not constrained.
    pub open spec fn refs_present(self, db: Db) -> bool {
        db.files.contains_id(self.file_id)
    }

    /// Construct a link between the file `file_id` and the record
    /// `entity_id`: not deleted, creation and update timestamps both set
    /// to the same current time, and `deleted_at` at the epoch sentinel.
    pub fn new(file_id: Id, entity_id: Id) -> (l: EntitiesFile)
        ensures
            l.file_id == file_id,
            l.entity_id == entity_id,
            !l.deleted,
            l.created_at == l.updated_at,
            l.deleted_at == (Timestamp { secs: 0, nanos: 0 }),
    {
        let created = now();
        EntitiesFile {
            file_id,
            entity_id,
            deleted: false,
            created_at: created,
            updated_at: created,
            deleted_at: Timestamp::epoch(),
        }
    }

    /// The file half of the link's key.
    pub fn id(&self) -> (id: Id)
        ensures
            id == self.file_id,
    {
        self.file_id
    }

    /// Persist a new link. Fails exactly when a link with the same
    /// (file, record) pair is already stored or the file it references is
    /// not; on success the table grows by this record, which is also
    /// returned as stored.
    pub fn insert(db: &mut Db, rec: EntitiesFile) -> (r: Result<EntitiesFile, DbError>)
        requires
            old(db).wf(),
        ensures
            final(db).wf(),
            match r {
                Ok(c) => {
                    &&& !has_link(old(db).entities_files@, rec.file_id, rec.entity_id)
                    &&& rec.refs_present(*old(db))
                    &&& c == rec
                    &&& final(db).entities_files@ == old(db).entities_files@.push(rec)
                    &&& final(db).same_except_entities_files(*old(db))
                },
                Err(e) => {
                    &&& e == DbError::ConstraintViolation
                    &&& (has_link(old(db).entities_files@, rec.file_id, rec.entity_id)
                        || !rec.refs_present(*old(db)))
                    &&& *final(db) == *old(db)
                },
            },
    {
        if !db.files.contains(rec.file_id) {
            return Err(DbError::ConstraintViolation);
        }
        if link_exists(&db.entities_files, rec.file_id, rec.entity_id) {
            return Err(DbError::ConstraintViolation);
        }
        let copy = rec.clone();
        proof {
            let rows = db.entities_files@;
            assert forall|i: int, j: int|
                0 <= i < j < rows.push(rec).len() implies ((#[trigger] rows.push(rec)[i]).file_id
                != (#[trigger] rows.push(rec)[j]).file_id || rows.push(rec)[i].entity_id
                != rows.push(rec)[j].entity_id) by {
                if j < rows.len() {
                    assert(rows[i].file_id != rows[j].file_id || rows[i].entity_id
                        != rows[j].entity_id);
                } else {
                    assert(rows.push(rec)[i] == rows[i]);
                    assert(!has_link(rows, rec.file_id, rec.entity_id));
                    assert(rows[i].file_id != rec.file_id || rows[i].entity_id != rec.entity_id);
                }
            }
        }
        db.entities_files.push(rec);
        Ok(copy)
    }

    /// Fetch every stored link whose file half is `fileid`, in storage
    /// order.
    pub fn get_by_file_id(db: &Db, fileid: Id) -> (r: Vec<EntitiesFile>)
        ensures
            r@ == links_of(db.entities_files@, fileid),
    {
        let rows = &db.entities_files;
        let mut r: Vec<EntitiesFile> = Vec::new();
        let mut i: usize = 0;
        proof {
            reveal(Seq::filter);
            assert(rows@.subrange(0, 0).filter(|l: EntitiesFile| l.file_id == fileid)
                =~= Seq::<EntitiesFile>::empty());
        }
        while i < rows.len()
            invariant
                i <= rows@.len(),
                r@ == links_of(rows@.subrange(0, i as int), fileid),
            decreases rows@.len() - i,
        {
            proof {
                reveal(Seq::filter);
                let pre = rows@.subrange(0, i as int);
                let cur = rows@.subrange(0, i + 1);
                assert(cur.drop_last() =~= pre);
                assert(cur.last() == rows@[i as int]);
            }
            if rows[i].file_id == fileid {
                r.push(rows[i].clone());
            }
            i += 1;
        }
        proof {
            assert(rows@.subrange(0, rows@.len() as int) =~= rows@);
        }
        r
    }
}

/// The links of `rows` whose file half is `file_id`, in storage order.
pub open spec fn links_of(rows: Seq<EntitiesFile>, file_id: Id) -> Seq<EntitiesFile> {
    rows.filter(|l: EntitiesFile| l.file_id == file_id)
}

/// Inserting a link and then fetching by its file identifier yields the
/// links that file had before with the new link appended; the new link is
/// never dropped by the fetch.
pub proof fn lemma_link_insert_then_fetch(rows: Seq<EntitiesFile>, l: EntitiesFile)
    ensures
        links_of(rows.push(l), l.file_id) == links_of(rows, l.file_id).push(l),
{
    reveal(Seq::filter);
    assert(rows.push(l).drop_last() =~= rows);
    assert(links_of(rows.push(l), l.file_id) == links_of(rows, l.file_id).push(l));
}

/// Inserting a link leaves the fetch for every other file identifier
/// unchanged.
pub proof fn lemma_link_other_file_unchanged(rows: Seq<EntitiesFile>, l: EntitiesFile, file_id: Id)
    requires
        l.file_id != file_id,
    ensures
        links_of(rows.push(l), file_id) == links_of(rows, file_id),
{
    reveal(Seq::filter);
    assert(rows.push(l).drop_last() =~= rows);
    assert(links_of(rows.push(l), file_id) == links_of(rows, file_id));
}

/// Whether a link with the pair (`file_id`, `entity_id`) is stored.
fn link_exists(rows: &Vec<EntitiesFile>, file_id: Id, entity_id: Id) -> (r: bool)
    ensures
        r == has_link(rows@, file_id, entity_id),
{
    let mut i: usize = 0;
    while i < rows.len()
        invariant
            i <= rows@.len(),
            forall|j: int|
                0 <= j < i ==> ((#[trigger] rows@[j]).file_id != file_id || rows@[j].entity_id
                    != entity_id),
        decreases rows@.len() - i,
    {
        if rows[i].file_id == file_id && rows[i].entity_id == entity_id {
            return true;
        }
        i += 1;
    }
    false
}

} // verus!
