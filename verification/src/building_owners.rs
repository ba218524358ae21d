//! Building owners: a person or body that owns buildings, with optional
//! references to the organization that manages for them, a linked user
//! account and contact details.

use vstd::prelude::*;

use crate::db::Db;
use crate::ident::{fresh_id, Id};
use crate::store::{lemma_push_keeps_ids, lemma_update_keeps_ids, opt_present, DbError, Record};
use crate::time::{now, Timestamp};

verus! {

/// A building owner.
#[derive(Debug)]
pub struct BuildingOwner {
    pub id: Id,
    pub full_name: String,
    pub is_manager: bool,
    pub org_id: Option<Id>,
    pub linked_user_id: Option<Id>,
    pub coordinates_id: Option<Id>,
    pub deleted: bool,
    pub created_at: Timestamp,
    pub updated_at: Timestamp,
    pub deleted_at: Timestamp,
}

impl Record for BuildingOwner {
    open spec fn rid(&self) -> Id {
        self.id
    }

    open spec fn is_deleted(&self) -> bool {
        self.deleted
    }

    fn key(&self) -> (k: Id) {
        self.id
    }
}

impl Clone for BuildingOwner {
    /// An exact copy, field for field.
    fn clone(&self) -> (r: Self)
        ensures
            r == *self,
    {
        BuildingOwner {
            id: self.id,
            full_name: self.full_name.clone(),
            is_manager: self.is_manager,
            org_id: self.org_id,
            linked_user_id: self.linked_user_id,
            coordinates_id: self.coordinates_id,
            deleted: self.deleted,
            created_at: self.created_at,
            updated_at: self.updated_at,
            deleted_at: self.deleted_at,
        }
    }
}

impl PartialEq for BuildingOwner {
    /// Record equality: every field agrees, with timestamps compared at
    /// second precision only.
    fn eq(&self, other: &Self) -> (r: bool) {
        self.id == other.id && self.full_name == other.full_name && self.is_manager
            == other.is_manager && self.org_id == other.org_id && self.linked_user_id
            == other.linked_user_id && self.coordinates_id == other.coordinates_id && self.deleted
            == other.deleted && self.created_at.at_same_second(&other.created_at)
            && self.updated_at.at_same_second(&other.updated_at) && self.deleted_at.at_same_second(
            &other.deleted_at,
        )
    }
}

impl vstd::std_specs::cmp::PartialEqSpecImpl for BuildingOwner {
    open spec fn obeys_eq_spec() -> bool {
        true
    }

    open spec fn eq_spec(&self, other: &Self) -> bool {
        &&& self.id == other.id
        &&& self.full_name@ == other.full_name@
        &&& self.is_manager == other.is_manager
        &&& self.org_id == other.org_id
        &&& self.linked_user_id == other.linked_user_id
        &&& self.coordinates_id == other.coordinates_id
        &&& self.deleted == other.deleted
        &&& self.created_at.same_second(other.created_at)
        &&& self.updated_at.same_second(other.updated_at)
        &&& self.deleted_at.same_second(other.deleted_at)
    }
}

impl BuildingOwner {
    /// The references this record makes, each satisfied in `db`: the
    /// optional organization, linked-user and coordinate references.
    pub open spec fn refs_present(self, db: Db) -> bool {
        &&& opt_present(db.organizations, self.org_id)
        &&& opt_present(db.users, self.linked_user_id)
        &&& opt_present(db.coordinates, self.coordinates_id)
    }

    /// Construct a building-owner record: a fresh identifier, the given
    /// business fields, not deleted, creation and update timestamps both
    /// set to the same current time, and `deleted_at` at the epoch
    /// sentinel.
    pub fn new(
        full_name: String,
        is_manager: bool,
        org_id: Option<Id>,
        linked_user_id: Option<Id>,
        coordinates_id: Option<Id>,
    ) -> (o: BuildingOwner)
        ensures
            o.full_name == full_name,
            o.is_manager == is_manager,
            o.org_id == org_id,
            o.linked_user_id == linked_user_id,
            o.coordinates_id == coordinates_id,
            !o.deleted,
            o.created_at == o.updated_at,
            o.deleted_at == (Timestamp { secs: 0, nanos: 0 }),
    {
        let created = now();
        BuildingOwner {
            id: fresh_id(),
            full_name,
            is_manager,
            org_id,
            linked_user_id,
            coordinates_id,
            deleted: false,
            created_at: created,
            updated_at: created,
            deleted_at: Timestamp::epoch(),
        }
    }

    /// The record's identifier.
    pub fn id(&self) -> (id: Id)
        ensures
            id == self.id,
    {
        self.id
    }

    /// Persist a new building-owner record. Fails exactly when a record
    /// with the same identifier is already stored or one of its
    /// references is not; on success the table grows by this record,
    /// which is also returned as stored.
    pub fn insert(db: &mut Db, rec: BuildingOwner) -> (r: Result<BuildingOwner, DbError>)
        requires
            old(db).wf(),
        ensures
            final(db).wf(),
            match r {
                Ok(c) => {
                    &&& !old(db).building_owners.contains_id(rec.id)
                    &&& rec.refs_present(*old(db))
                    &&& c == rec
                    &&& final(db).building_owners@ == old(db).building_owners@.push(rec)
                    &&& final(db).same_except_building_owners(*old(db))
                },
                Err(e) => {
                    &&& e == DbError::ConstraintViolation
                    &&& (old(db).building_owners.contains_id(rec.id) || !rec.refs_present(
                        *old(db),
                    ))
                    &&& *final(db) == *old(db)
                },
            },
    {
        match rec.org_id {
            Some(oid) => {
                if !db.organizations.contains(oid) {
                    return Err(DbError::ConstraintViolation);
                }
            },
            None => {},
        }
        match rec.linked_user_id {
            Some(uid) => {
                if !db.users.contains(uid) {
                    return Err(DbError::ConstraintViolation);
                }
            },
            None => {},
        }
        match rec.coordinates_id {
            Some(cid) => {
                if !db.coordinates.contains(cid) {
                    return Err(DbError::ConstraintViolation);
                }
            },
            None => {},
        }
        let copy = rec.clone();
        match db.building_owners.insert(rec) {
            Ok(_) => {
                proof {
                    lemma_building_owners_grow(*old(db), *db, rec);
                }
                Ok(copy)
            },
            Err(e) => Err(e),
        }
    }

    /// Replace the stored record that carries this record's identifier
    /// with this record, refreshing its update timestamp. Fails when no
    /// record with that identifier is stored or one of its references is
    /// not; on success the record as stored — update timestamp included —
    /// is returned.
    pub fn update(db: &mut Db, rec: BuildingOwner) -> (r: Result<BuildingOwner, DbError>)
        requires
            old(db).wf(),
        ensures
            final(db).wf(),
            match r {
                Ok(c) => {
                    &&& old(db).building_owners.contains_id(rec.id)
                    &&& rec.refs_present(*old(db))
                    &&& c == (BuildingOwner { updated_at: c.updated_at, ..rec })
                    &&& final(db).building_owners@ == old(db).building_owners@.update(
                        old(db).building_owners.index_of(rec.id),
                        c,
                    )
                    &&& final(db).same_except_building_owners(*old(db))
                },
                Err(e) => {
                    &&& *final(db) == *old(db)
                    &&& match e {
                        DbError::NotFound => !old(db).building_owners.contains_id(rec.id),
                        DbError::ConstraintViolation => old(db).building_owners.contains_id(rec.id)
                            && !rec.refs_present(*old(db)),
                    }
                },
            },
    {
        if !db.building_owners.contains(rec.key()) {
            return Err(DbError::NotFound);
        }
        match rec.org_id {
            Some(oid) => {
                if !db.organizations.contains(oid) {
                    return Err(DbError::ConstraintViolation);
                }
            },
            None => {},
        }
        match rec.linked_user_id {
            Some(uid) => {
                if !db.users.contains(uid) {
                    return Err(DbError::ConstraintViolation);
                }
            },
            None => {},
        }
        match rec.coordinates_id {
            Some(cid) => {
                if !db.coordinates.contains(cid) {
                    return Err(DbError::ConstraintViolation);
                }
            },
            None => {},
        }
        let mut stored = rec;
        stored.updated_at = now();
        let copy = stored.clone();
        match db.building_owners.replace(stored) {
            Ok(_) => {
                proof {
                    lemma_building_owners_swap(*old(db), *db, copy);
                }
                Ok(copy)
            },
            Err(e) => Err(e),
        }
    }

    /// Fetch the stored record with the given identifier, soft-deleted or
    /// not. Fails exactly when no record carries it.
    pub fn get_one_by_id(db: &Db, bo_id: Id) -> (r: Result<BuildingOwner, DbError>)
        requires
            db.wf(),
        ensures
            match r {
                Ok(c) => {
                    &&& db.building_owners.contains_id(bo_id)
                    &&& c == db.building_owners.row_at(bo_id)
                },
                Err(e) => {
                    &&& e == DbError::NotFound
                    &&& !db.building_owners.contains_id(bo_id)
                },
            },
    {
        match db.building_owners.get(bo_id) {
            Some(row) => Ok(row.clone()),
            None => Err(DbError::NotFound),
        }
    }
}

/// Growing the building-owner table keeps every referential rule: the new
/// row's own references were checked, and every reference into the table
/// is kept by growth.
proof fn lemma_building_owners_grow(pre: Db, post: Db, rec: BuildingOwner)
    requires
        pre.wf(),
        rec.refs_present(pre),
        post.building_owners@ == pre.building_owners@.push(rec),
        post.same_except_building_owners(pre),
    ensures
        post.refs_ok(),
{
    let n = pre.building_owners@.len() as int;
    assert forall|i: int|
        0 <= i < post.building_owners@.len() implies (
    #[trigger] post.building_owners@[i]).refs_present(post) by {
        if i < n {
            assert(pre.building_owners@[i].refs_present(pre));
        }
    }
    assert forall|i: int|
        0 <= i < post.buildings@.len() implies (#[trigger] post.buildings@[i]).refs_present(post) by {
        let b = post.buildings@[i];
        assert(b.refs_present(pre));
        lemma_push_keeps_ids(pre.building_owners@, rec, b.owner_id);
    }
}

/// Replacing a building-owner row by one with the same identifier keeps
/// every referential rule: the new row's own references were checked, and
/// the table's identifier set does not change.
proof fn lemma_building_owners_swap(pre: Db, post: Db, rec: BuildingOwner)
    requires
        pre.wf(),
        rec.refs_present(pre),
        pre.building_owners.contains_id(rec.id),
        post.building_owners@ == pre.building_owners@.update(
            pre.building_owners.index_of(rec.id),
            rec,
        ),
        post.same_except_building_owners(pre),
    ensures
        post.refs_ok(),
{
    let i = pre.building_owners.index_of(rec.id);
    assert(0 <= i < pre.building_owners@.len() && pre.building_owners@[i].rid() == rec.id);
    assert forall|j: int|
        0 <= j < post.building_owners@.len() implies (
    #[trigger] post.building_owners@[j]).refs_present(post) by {
        if j != i {
            assert(pre.building_owners@[j].refs_present(pre));
        }
    }
    assert forall|j: int|
        0 <= j < post.buildings@.len() implies (#[trigger] post.buildings@[j]).refs_present(post) by {
        let b = post.buildings@[j];
        assert(b.refs_present(pre));
        lemma_update_keeps_ids(pre.building_owners@, i, rec, b.owner_id);
    }
}

} // verus!
