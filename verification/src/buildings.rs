//! Buildings: the central record. Every building names its owner, the
//! organization that manages it and a responding user; all three are
//! required references.

use vstd::prelude::*;

use crate::db::Db;
use crate::ident::{fresh_id, Id};
use crate::store::{lemma_push_keeps_ids, lemma_update_keeps_ids, DbError, Record};
use crate::time::{now, Timestamp};

verus! {

/// A building.
#[derive(Debug)]
pub struct Building {
    pub id: Id,
    pub owner_id: Id,
    pub org_id: Id,
    pub respondant_id: Id,
    pub name: String,
    pub address: String,
    pub deleted: bool,
    pub created_at: Timestamp,
    pub updated_at: Timestamp,
    pub deleted_at: Timestamp,
}

impl Record for Building {
    open spec fn rid(&self) -> Id {
        self.id
    }

    open spec fn is_deleted(&self) -> bool {
        self.deleted
    }

    fn key(&self) -> (k: Id) {
        self.id
    }
}

impl Clone for Building {
    /// An exact copy, field for field.
    fn clone(&self) -> (r: Self)
        ensures
            r == *self,
    {
        Building {
            id: self.id,
            owner_id: self.owner_id,
            org_id: self.org_id,
            respondant_id: self.respondant_id,
            name: self.name.clone(),
            address: self.address.clone(),
            deleted: self.deleted,
            created_at: self.created_at,
            updated_at: self.updated_at,
            deleted_at: self.deleted_at,
        }
    }
}

impl PartialEq for Building {
    /// Record equality: every field agrees, with the creation and deletion
    /// timestamps compared at second precision and the update timestamp
    /// left out, since a replace refreshes it.
    fn eq(&self, other: &Self) -> (r: bool) {
        self.id == other.id && self.owner_id == other.owner_id && self.org_id == other.org_id
            && self.respondant_id == other.respondant_id && self.name == other.name && self.address
            == other.address && self.deleted == other.deleted && self.created_at.at_same_second(
            &other.created_at,
        ) && self.deleted_at.at_same_second(&other.deleted_at)
    }
}

impl vstd::std_specs::cmp::PartialEqSpecImpl for Building {
    open spec fn obeys_eq_spec() -> bool {
        true
    }

    open spec fn eq_spec(&self, other: &Self) -> bool {
        &&& self.id == other.id
        &&& self.owner_id == other.owner_id
        &&& self.org_id == other.org_id
        &&& self.respondant_id == other.respondant_id
        &&& self.name@ == other.name@
        &&& self.address@ == other.address@
        &&& self.deleted == other.deleted
        &&& self.created_at.same_second(other.created_at)
        &&& self.deleted_at.same_second(other.deleted_at)
    }
}

impl Building {
    /// The references this record makes, each satisfied in `db`: the
    /// required owner, organization and responding-user references.
    pub open spec fn refs_present(self, db: Db) -> bool {
        &&& db.building_owners.contains_id(self.owner_id)
        &&& db.organizations.contains_id(self.org_id)
        &&& db.users.contains_id(self.respondant_id)
    }

    /// Construct a building record: a fresh identifier, the given
    /// business fields and references, not deleted, creation and update
    /// timestamps both set to the same current time, and `deleted_at` at
    /// the epoch sentinel.
    pub fn new(owner_id: Id, org_id: Id, respondant_id: Id, name: String, address: String) -> (b:
        Building)
        ensures
            b.owner_id == owner_id,
            b.org_id == org_id,
            b.respondant_id == respondant_id,
            b.name == name,
            b.address == address,
            !b.deleted,
            b.created_at == b.updated_at,
            b.deleted_at == (Timestamp { secs: 0, nanos: 0 }),
    {
        let created = now();
        Building {
            id: fresh_id(),
            owner_id,
            org_id,
            respondant_id,
            name,
            address,
            deleted: false,
            created_at: created,
            updated_at: created,
            deleted_at: Timestamp::epoch(),
        }
    }

    /// The record's identifier.
    pub fn id(&self) -> (id: Id)
        ensures
            id == self.id,
    {
        self.id
    }

    /// Persist a new building record. Fails exactly when a record with
    /// the same identifier is already stored or one of its required
    /// references — owner, organization, responding user — is not; on
    /// success the table grows by this record, which is also returned as
    /// stored.
    pub fn insert(db: &mut Db, rec: Building) -> (r: Result<Building, DbError>)
        requires
            old(db).wf(),
        ensures
            final(db).wf(),
            match r {
                Ok(c) => {
                    &&& !old(db).buildings.contains_id(rec.id)
                    &&& rec.refs_present(*old(db))
                    &&& c == rec
                    &&& final(db).buildings@ == old(db).buildings@.push(rec)
                    &&& final(db).same_except_buildings(*old(db))
                },
                Err(e) => {
                    &&& e == DbError::ConstraintViolation
                    &&& (old(db).buildings.contains_id(rec.id) || !rec.refs_present(*old(db)))
                    &&& *final(db) == *old(db)
                },
            },
    {
        if !db.building_owners.contains(rec.owner_id) {
            return Err(DbError::ConstraintViolation);
        }
        if !db.organizations.contains(rec.org_id) {
            return Err(DbError::ConstraintViolation);
        }
        if !db.users.contains(rec.respondant_id) {
            return Err(DbError::ConstraintViolation);
        }
        let copy = rec.clone();
        match db.buildings.insert(rec) {
            Ok(_) => {
                proof {
                    lemma_buildings_grow(*old(db), *db, rec);
                }
                Ok(copy)
            },
            Err(e) => Err(e),
        }
    }

    /// Replace the stored record that carries this record's identifier
    /// with this record, refreshing its update timestamp. Fails when no
    /// record with that identifier is stored or one of its required
    /// references is not; on success the record as stored — update
    /// timestamp included — is returned.
    pub fn update(db: &mut Db, rec: Building) -> (r: Result<Building, DbError>)
        requires
            old(db).wf(),
        ensures
            final(db).wf(),
            match r {
                Ok(c) => {
                    &&& old(db).buildings.contains_id(rec.id)
                    &&& rec.refs_present(*old(db))
                    &&& c == (Building { updated_at: c.updated_at, ..rec })
                    &&& final(db).buildings@ == old(db).buildings@.update(
                        old(db).buildings.index_of(rec.id),
                        c,
                    )
                    &&& final(db).same_except_buildings(*old(db))
                },
                Err(e) => {
                    &&& *final(db) == *old(db)
                    &&& match e {
                        DbError::NotFound => !old(db).buildings.contains_id(rec.id),
                        DbError::ConstraintViolation => old(db).buildings.contains_id(rec.id)
                            && !rec.refs_present(*old(db)),
                    }
                },
            },
    {
        if !db.buildings.contains(rec.key()) {
            return Err(DbError::NotFound);
        }
        if !db.building_owners.contains(rec.owner_id) {
            return Err(DbError::ConstraintViolation);
        }
        if !db.organizations.contains(rec.org_id) {
            return Err(DbError::ConstraintViolation);
        }
        if !db.users.contains(rec.respondant_id) {
            return Err(DbError::ConstraintViolation);
        }
        let mut stored = rec;
        stored.updated_at = now();
        let copy = stored.clone();
        match db.buildings.replace(stored) {
            Ok(_) => {
                proof {
                    lemma_buildings_swap(*old(db), *db, copy);
                }
                Ok(copy)
            },
            Err(e) => Err(e),
        }
    }

    /// Fetch the stored record with the given identifier, soft-deleted or
    /// not. Fails exactly when no record carries it.
    pub fn get_one_by_id(db: &Db, bid: Id) -> (r: Result<Building, DbError>)
        requires
            db.wf(),
        ensures
            match r {
                Ok(c) => {
                    &&& db.buildings.contains_id(bid)
                    &&& c == db.buildings.row_at(bid)
                },
                Err(e) => {
                    &&& e == DbError::NotFound
                    &&& !db.buildings.contains_id(bid)
                },
            },
    {
        match db.buildings.get(bid) {
            Some(row) => Ok(row.clone()),
            None => Err(DbError::NotFound),
        }
    }

    /// Fetch every stored record, in storage order.
    pub fn get_all(db: &Db) -> (r: Vec<Building>)
        ensures
            r@ == db.buildings@,
    {
        let mut r: Vec<Building> = Vec::new();
        let mut i: usize = 0;
        let n = db.buildings.len();
        while i < n
            invariant
                n == db.buildings@.len(),
                i <= n,
                r@ == db.buildings@.subrange(0, i as int),
            decreases n - i,
        {
            r.push(db.buildings.at(i).clone());
            proof {
                assert(r@ =~= db.buildings@.subrange(0, i + 1));
            }
            i += 1;
        }
        proof {
            assert(r@ =~= db.buildings@);
        }
        r
    }
}

/// Growing the building table keeps every referential rule: the new
/// row's own references were checked, and every reference into the table
/// is kept by growth.
proof fn lemma_buildings_grow(pre: Db, post: Db, rec: Building)
    requires
        pre.wf(),
        rec.refs_present(pre),
        post.buildings@ == pre.buildings@.push(rec),
        post.same_except_buildings(pre),
    ensures
        post.refs_ok(),
{
    let n = pre.buildings@.len() as int;
    assert forall|i: int|
        0 <= i < post.buildings@.len() implies (#[trigger] post.buildings@[i]).refs_present(post) by {
        if i < n {
            assert(pre.buildings@[i].refs_present(pre));
        }
    }
    assert forall|i: int|
        0 <= i < post.registers@.len() implies (#[trigger] post.registers@[i]).refs_present(post) by {
        let g = post.registers@[i];
        assert(g.refs_present(pre));
        lemma_push_keeps_ids(pre.buildings@, rec, g.building_id);
    }
}

/// Replacing a building row by one with the same identifier keeps every
/// referential rule: the new row's own references were checked, and the
/// table's identifier set does not change.
proof fn lemma_buildings_swap(pre: Db, post: Db, rec: Building)
    requires
        pre.wf(),
        rec.refs_present(pre),
        pre.buildings.contains_id(rec.id),
        post.buildings@ == pre.buildings@.update(pre.buildings.index_of(rec.id), rec),
        post.same_except_buildings(pre),
    ensures
        post.refs_ok(),
{
    let i = pre.buildings.index_of(rec.id);
    assert(0 <= i < pre.buildings@.len() && pre.buildings@[i].rid() == rec.id);
    assert forall|j: int|
        0 <= j < post.buildings@.len() implies (#[trigger] post.buildings@[j]).refs_present(post) by {
        if j != i {
            assert(pre.buildings@[j].refs_present(pre));
        }
    }
    assert forall|j: int|
        0 <= j < post.registers@.len() implies (#[trigger] post.registers@[j]).refs_present(post) by {
        let g = post.registers@[j];
        assert(g.refs_present(pre));
        lemma_update_keeps_ids(pre.buildings@, i, rec, g.building_id);
    }
}

} // verus!
