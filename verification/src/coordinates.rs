//! Coordinates: the contact details a record can point at — an address,
//! phone numbers, an email address and a company name and number.

use vstd::prelude::*;

use crate::db::Db;
use crate::ident::{fresh_id, Id};
use crate::store::{lemma_push_keeps_ids, lemma_update_keeps_ids, DbError, Record};
use crate::time::{now, Timestamp};

verus! {

/// A set of contact details.
#[derive(Debug)]
pub struct Coordinate {
    pub id: Id,
    pub address: String,
    pub telephone_no: String,
    pub fax: String,
    pub cellphone_no: String,
    pub email: String,
    pub company_name: String,
    pub company_number: String,
    pub deleted: bool,
    pub created_at: Timestamp,
    pub updated_at: Timestamp,
    pub deleted_at: Timestamp,
}

impl Record for Coordinate {
    open spec fn rid(&self) -> Id {
        self.id
    }

    open spec fn is_deleted(&self) -> bool {
        self.deleted
    }

    fn key(&self) -> (k: Id) {
        self.id
    }
}

impl Clone for Coordinate {
    /// An exact copy, field for field.
    fn clone(&self) -> (r: Self)
        ensures
            r == *self,
    {
        Coordinate {
            id: self.id,
            address: self.address.clone(),
            telephone_no: self.telephone_no.clone(),
            fax: self.fax.clone(),
            cellphone_no: self.cellphone_no.clone(),
            email: self.email.clone(),
            company_name: self.company_name.clone(),
            company_number: self.company_number.clone(),
            deleted: self.deleted,
            created_at: self.created_at,
            updated_at: self.updated_at,
            deleted_at: self.deleted_at,
        }
    }
}

impl PartialEq for Coordinate {
    /// Record equality: every field agrees, with timestamps compared at
    /// second precision only.
    fn eq(&self, other: &Self) -> (r: bool) {
        self.id == other.id && self.address == other.address && self.telephone_no
            == other.telephone_no && self.fax == other.fax && self.cellphone_no
            == other.cellphone_no && self.email == other.email && self.company_name
            == other.company_name && self.company_number == other.company_number && self.deleted
            == other.deleted && self.created_at.at_same_second(&other.created_at)
            && self.updated_at.at_same_second(&other.updated_at) && self.deleted_at.at_same_second(
            &other.deleted_at,
        )
    }
}

impl vstd::std_specs::cmp::PartialEqSpecImpl for Coordinate {
    open spec fn obeys_eq_spec() -> bool {
        true
    }

    open spec fn eq_spec(&self, other: &Self) -> bool {
        &&& self.id == other.id
        &&& self.address@ == other.address@
        &&& self.telephone_no@ == other.telephone_no@
        &&& self.fax@ == other.fax@
        &&& self.cellphone_no@ == other.cellphone_no@
        &&& self.email@ == other.email@
        &&& self.company_name@ == other.company_name@
        &&& self.company_number@ == other.company_number@
        &&& self.deleted == other.deleted
        &&& self.created_at.same_second(other.created_at)
        &&& self.updated_at.same_second(other.updated_at)
        &&& self.deleted_at.same_second(other.deleted_at)
    }
}

impl Coordinate {
    /// Construct a coordinate record: a fresh identifier, the given
    /// business fields, not deleted, creation and update timestamps both
    /// set to the same current time, and `deleted_at` at the epoch
    /// sentinel.
    pub fn new(
        address: String,
        telephone_no: String,
        fax: String,
        cellphone_no: String,
        email: String,
        company_name: String,
        company_number: String,
    ) -> (c: Coordinate)
        ensures
            c.address == address,
            c.telephone_no == telephone_no,
            c.fax == fax,
            c.cellphone_no == cellphone_no,
            c.email == email,
            c.company_name == company_name,
            c.company_number == company_number,
            !c.deleted,
            c.created_at == c.updated_at,
            c.deleted_at == (Timestamp { secs: 0, nanos: 0 }),
    {
        let created = now();
        Coordinate {
            id: fresh_id(),
            address,
            telephone_no,
            fax,
            cellphone_no,
            email,
            company_name,
            company_number,
            deleted: false,
            created_at: created,
            updated_at: created,
            deleted_at: Timestamp::epoch(),
        }
    }

    /// The record's identifier.
    pub fn id(&self) -> (id: Id)
        ensures
            id == self.id,
    {
        self.id
    }

    /// Persist a new coordinate record. Fails exactly when a record with
    /// the same identifier is already stored; on success the table grows
    /// by this record, which is also returned as stored.
    pub fn insert(db: &mut Db, rec: Coordinate) -> (r: Result<Coordinate, DbError>)
        requires
            old(db).wf(),
        ensures
            final(db).wf(),
            match r {
                Ok(c) => {
                    &&& !old(db).coordinates.contains_id(rec.id)
                    &&& c == rec
                    &&& final(db).coordinates@ == old(db).coordinates@.push(rec)
                    &&& final(db).same_except_coordinates(*old(db))
                },
                Err(e) => {
                    &&& e == DbError::ConstraintViolation
                    &&& old(db).coordinates.contains_id(rec.id)
                    &&& *final(db) == *old(db)
                },
            },
    {
        let copy = rec.clone();
        match db.coordinates.insert(rec) {
            Ok(_) => {
                proof {
                    lemma_coordinates_grow(*old(db), *db, rec);
                }
                Ok(copy)
            },
            Err(e) => Err(e),
        }
    }

    /// Replace the stored record that carries this record's identifier
    /// with this record, refreshing its update timestamp. Fails exactly
    /// when no record with that identifier is stored; on success the
    /// record as stored — update timestamp included — is returned.
    pub fn update(db: &mut Db, rec: Coordinate) -> (r: Result<Coordinate, DbError>)
        requires
            old(db).wf(),
        ensures
            final(db).wf(),
            match r {
                Ok(c) => {
                    &&& old(db).coordinates.contains_id(rec.id)
                    &&& c == (Coordinate { updated_at: c.updated_at, ..rec })
                    &&& final(db).coordinates@ == old(db).coordinates@.update(
                        old(db).coordinates.index_of(rec.id),
                        c,
                    )
                    &&& final(db).same_except_coordinates(*old(db))
                },
                Err(e) => {
                    &&& e == DbError::NotFound
                    &&& !old(db).coordinates.contains_id(rec.id)
                    &&& *final(db) == *old(db)
                },
            },
    {
        let mut stored = rec;
        stored.updated_at = now();
        let copy = stored.clone();
        match db.coordinates.replace(stored) {
            Ok(_) => {
                proof {
                    lemma_coordinates_swap(*old(db), *db, copy);
                }
                Ok(copy)
            },
            Err(e) => Err(e),
        }
    }

    /// Fetch the stored record with the given identifier, soft-deleted or
    /// not. Fails exactly when no record carries it.
    pub fn get_one_by_id(db: &Db, coord_id: Id) -> (r: Result<Coordinate, DbError>)
        requires
            db.wf(),
        ensures
            match r {
                Ok(c) => {
                    &&& db.coordinates.contains_id(coord_id)
                    &&& c == db.coordinates.row_at(coord_id)
                },
                Err(e) => {
                    &&& e == DbError::NotFound
                    &&& !db.coordinates.contains_id(coord_id)
                },
            },
    {
        match db.coordinates.get(coord_id) {
            Some(row) => Ok(row.clone()),
            None => Err(DbError::NotFound),
        }
    }
}

/// Growing the coordinate table keeps every reference into it satisfied.
proof fn lemma_coordinates_grow(pre: Db, post: Db, rec: Coordinate)
    requires
        pre.wf(),
        post.coordinates@ == pre.coordinates@.push(rec),
        post.same_except_coordinates(pre),
    ensures
        post.refs_ok(),
{
    assert forall|i: int|
        0 <= i < post.organizations@.len() implies (#[trigger] post.organizations@[i]).refs_present(
        post,
    ) by {
        let o = post.organizations@[i];
        assert(o.refs_present(pre));
        match o.coordinates_id {
            Some(cid) => lemma_push_keeps_ids(pre.coordinates@, rec, cid),
            None => {},
        }
    }
    assert forall|i: int|
        0 <= i < post.building_owners@.len() implies (
    #[trigger] post.building_owners@[i]).refs_present(post) by {
        let o = post.building_owners@[i];
        assert(o.refs_present(pre));
        match o.coordinates_id {
            Some(cid) => lemma_push_keeps_ids(pre.coordinates@, rec, cid),
            None => {},
        }
    }
}

/// Replacing a coordinate row by one with the same identifier keeps every
/// reference into the table satisfied.
proof fn lemma_coordinates_swap(pre: Db, post: Db, rec: Coordinate)
    requires
        pre.wf(),
        pre.coordinates.contains_id(rec.id),
        post.coordinates@ == pre.coordinates@.update(pre.coordinates.index_of(rec.id), rec),
        post.same_except_coordinates(pre),
    ensures
        post.refs_ok(),
{
    let i = pre.coordinates.index_of(rec.id);
    assert(0 <= i < pre.coordinates@.len() && pre.coordinates@[i].rid() == rec.id);
    assert forall|j: int|
        0 <= j < post.organizations@.len() implies (#[trigger] post.organizations@[j]).refs_present(
        post,
    ) by {
        let o = post.organizations@[j];
        assert(o.refs_present(pre));
        match o.coordinates_id {
            Some(cid) => lemma_update_keeps_ids(pre.coordinates@, i, rec, cid),
            None => {},
        }
    }
    assert forall|j: int|
        0 <= j < post.building_owners@.len() implies (
    #[trigger] post.building_owners@[j]).refs_present(post) by {
        let o = post.building_owners@[j];
        assert(o.refs_present(pre));
        match o.coordinates_id {
            Some(cid) => lemma_update_keeps_ids(pre.coordinates@, i, rec, cid),
            None => {},
        }
    }
}

} // verus!
