//! Registers: a named register kept for one building.

use vstd::prelude::*;

use crate::db::Db;
use crate::ident::{fresh_id, Id};
use crate::store::{DbError, Record};
use crate::time::{now, Timestamp};

verus! {

/// A register that belongs to a building.
#[derive(Debug)]
pub struct Register {
    pub id: Id,
    pub name: String,
    pub building_id: Id,
    pub deleted: bool,
    pub created_at: Timestamp,
    pub updated_at: Timestamp,
    pub deleted_at: Timestamp,
}

impl Record for Register {
    open spec fn rid(&self) -> Id {
        self.id
    }

    open spec fn is_deleted(&self) -> bool {
        self.deleted
    }

    fn key(&self) -> (k: Id) {
        self.id
    }
}

impl Clone for Register {
    /// An exact copy, field for field.
    fn clone(&self) -> (r: Self)
        ensures
            r == *self,
    {
        Register {
            id: self.id,
            name: self.name.clone(),
            building_id: self.building_id,
            deleted: self.deleted,
            created_at: self.created_at,
            updated_at: self.updated_at,
            deleted_at: self.deleted_at,
        }
    }
}

impl PartialEq for Register {
    /// Record equality: every field agrees, with the creation and deletion
    /// timestamps compared at second precision and the update timestamp
    /// left out, since a replace refreshes it.
    fn eq(&self, other: &Self) -> (r: bool) {
        self.id == other.id && self.name == other.name && self.building_id == other.building_id
            && self.deleted == other.deleted && self.created_at.at_same_second(&other.created_at)
            && self.deleted_at.at_same_second(&other.deleted_at)
    }
}

impl vstd::std_specs::cmp::PartialEqSpecImpl for Register {
    open spec fn obeys_eq_spec() -> bool {
        true
    }

    open spec fn eq_spec(&self, other: &Self) -> bool {
        &&& self.id == other.id
        &&& self.name@ == other.name@
        &&& self.building_id == other.building_id
        &&& self.deleted == other.deleted
        &&& self.created_at.same_second(other.created_at)
        &&& self.deleted_at.same_second(other.deleted_at)
    }
}

impl Register {
    /// The references this record makes, each satisfied in `db`: the
    /// required building reference.
    pub open spec fn refs_present(self, db: Db) -> bool {
        db.buildings.contains_id(self.building_id)
    }

    /// Construct a register: a fresh identifier, the given name and
    /// owning building, not deleted, creation and update timestamps both
    /// set to the same current time, and `deleted_at` at the epoch
    /// sentinel.
    pub fn new(name: String, building_id: Id) -> (g: Register)
        ensures
            g.name == name,
            g.building_id == building_id,
            !g.deleted,
            g.created_at == g.updated_at,
            g.deleted_at == (Timestamp { secs: 0, nanos: 0 }),
    {
        let created = now();
        Register {
            id: fresh_id(),
            name,
            building_id,
            deleted: false,
            created_at: created,
            updated_at: created,
            deleted_at: Timestamp::epoch(),
        }
    }

    /// The record's identifier.
    pub fn id(&self) -> (id: Id)
        ensures
            id == self.id,
    {
        self.id
    }

    /// Persist a new register record. Fails exactly when a record with
    /// the same identifier is already stored or the building it
    /// references is not; on success the table grows by this record,
    /// which is also returned as stored.
    pub fn insert(db: &mut Db, rec: Register) -> (r: Result<Register, DbError>)
        requires
            old(db).wf(),
        ensures
            final(db).wf(),
            match r {
                Ok(c) => {
                    &&& !old(db).registers.contains_id(rec.id)
                    &&& rec.refs_present(*old(db))
                    &&& c == rec
                    &&& final(db).registers@ == old(db).registers@.push(rec)
                    &&& final(db).same_except_registers(*old(db))
                },
                Err(e) => {
                    &&& e == DbError::ConstraintViolation
                    &&& (old(db).registers.contains_id(rec.id) || !rec.refs_present(*old(db)))
                    &&& *final(db) == *old(db)
                },
            },
    {
        if !db.buildings.contains(rec.building_id) {
            return Err(DbError::ConstraintViolation);
        }
        let copy = rec.clone();
        match db.registers.insert(rec) {
            Ok(_) => {
                proof {
                    lemma_registers_keep(*old(db), *db);
                }
                Ok(copy)
            },
            Err(e) => Err(e),
        }
    }

    /// Replace the stored record that carries this record's identifier
    /// with this record, refreshing its update timestamp. Fails when no
    /// record with that identifier is stored or the building it
    /// references is not; on success the record as stored — update
    /// timestamp included — is returned.
    pub fn update(db: &mut Db, rec: Register) -> (r: Result<Register, DbError>)
        requires
            old(db).wf(),
        ensures
            final(db).wf(),
            match r {
                Ok(c) => {
                    &&& old(db).registers.contains_id(rec.id)
                    &&& rec.refs_present(*old(db))
                    &&& c == (Register { updated_at: c.updated_at, ..rec })
                    &&& final(db).registers@ == old(db).registers@.update(
                        old(db).registers.index_of(rec.id),
                        c,
                    )
                    &&& final(db).same_except_registers(*old(db))
                },
                Err(e) => {
                    &&& *final(db) == *old(db)
                    &&& match e {
                        DbError::NotFound => !old(db).registers.contains_id(rec.id),
                        DbError::ConstraintViolation => old(db).registers.contains_id(rec.id)
                            && !rec.refs_present(*old(db)),
                    }
                },
            },
    {
        if !db.registers.contains(rec.key()) {
            return Err(DbError::NotFound);
        }
        if !db.buildings.contains(rec.building_id) {
            return Err(DbError::ConstraintViolation);
        }
        let mut stored = rec;
        stored.updated_at = now();
        let copy = stored.clone();
        match db.registers.replace(stored) {
            Ok(_) => {
                proof {
                    lemma_registers_keep(*old(db), *db);
                }
                Ok(copy)
            },
            Err(e) => Err(e),
        }
    }

    /// Fetch the stored record with the given identifier, soft-deleted or
    /// not. Fails exactly when no record carries it.
    pub fn get_one_by_id(db: &Db, register_id: Id) -> (r: Result<Register, DbError>)
        requires
            db.wf(),
        ensures
            match r {
                Ok(c) => {
                    &&& db.registers.contains_id(register_id)
                    &&& c == db.registers.row_at(register_id)
                },
                Err(e) => {
                    &&& e == DbError::NotFound
                    &&& !db.registers.contains_id(register_id)
                },
            },
    {
        match db.registers.get(register_id) {
            Some(row) => Ok(row.clone()),
            None => Err(DbError::NotFound),
        }
    }
}

/// A change that only touches the register table, where every changed or
/// added row has its building reference checked, keeps every referential
/// rule: no other table refers to registers.
proof fn lemma_registers_keep(pre: Db, post: Db)
    requires
        pre.wf(),
        post.same_except_registers(pre),
        forall|i: int|
            0 <= i < post.registers@.len() ==> post.buildings.contains_id(
                (#[trigger] post.registers@[i]).building_id,
            ),
    ensures
        post.refs_ok(),
{
}

} // verus!
