//! Organizations: the bodies that manage buildings — a name, a binary
//! profile picture and optional contact details.

use vstd::prelude::*;

use crate::db::Db;
use crate::ident::{fresh_id, Id};
use crate::store::{lemma_push_keeps_ids, lemma_update_keeps_ids, opt_present, DbError, Record};
use crate::time::{now, Timestamp};

verus! {

/// An organization that manages buildings.
#[derive(Debug)]
pub struct Organization {
    pub id: Id,
    pub org_name: String,
    pub profile_picture: Vec<u8>,
    pub coordinates_id: Option<Id>,
    pub deleted: bool,
    pub created_at: Timestamp,
    pub updated_at: Timestamp,
    pub deleted_at: Timestamp,
}

/// Copy a byte vector, element for element.
fn copy_bytes(a: &Vec<u8>) -> (r: Vec<u8>)
    ensures
        r@ == a@,
{
    let mut r: Vec<u8> = Vec::new();
    let mut i: usize = 0;
    while i < a.len()
        invariant
            i <= a@.len(),
            r@ == a@.subrange(0, i as int),
        decreases a@.len() - i,
    {
        r.push(a[i]);
        proof {
            assert(r@ =~= a@.subrange(0, i + 1));
        }
        i += 1;
    }
    proof {
        assert(r@ =~= a@);
    }
    r
}

/// Compare two byte vectors, element for element.
fn bytes_equal(a: &Vec<u8>, b: &Vec<u8>) -> (r: bool)
    ensures
        r == (a@ == b@),
{
    if a.len() != b.len() {
        return false;
    }
    let mut i: usize = 0;
    while i < a.len()
        invariant
            a@.len() == b@.len(),
            i <= a@.len(),
            forall|j: int| 0 <= j < i ==> a@[j] == b@[j],
        decreases a@.len() - i,
    {
        if a[i] != b[i] {
            return false;
        }
        i += 1;
    }
    proof {
        assert(a@ =~= b@);
    }
    true
}

impl Record for Organization {
    open spec fn rid(&self) -> Id {
        self.id
    }

    open spec fn is_deleted(&self) -> bool {
        self.deleted
    }

    fn key(&self) -> (k: Id) {
        self.id
    }
}

impl Organization {
    /// The references this record makes, each satisfied in `db`: the
    /// optional coordinate reference.
    pub open spec fn refs_present(self, db: Db) -> bool {
        opt_present(db.coordinates, self.coordinates_id)
    }

    /// Full-precision agreement: every field agrees, with the profile
    /// picture compared byte for byte.
    pub open spec fn same_value(self, other: Organization) -> bool {
        &&& self.id == other.id
        &&& self.org_name == other.org_name
        &&& self.profile_picture@ == other.profile_picture@
        &&& self.coordinates_id == other.coordinates_id
        &&& self.deleted == other.deleted
        &&& self.created_at == other.created_at
        &&& self.updated_at == other.updated_at
        &&& self.deleted_at == other.deleted_at
    }

    /// Construct an organization record: a fresh identifier, the given
    /// business fields, not deleted, creation and update timestamps both
    /// set to the same current time, and `deleted_at` at the epoch
    /// sentinel.
    pub fn new(org_name: String, profile_picture: Vec<u8>, coordinates_id: Option<Id>) -> (o:
        Organization)
        ensures
            o.org_name == org_name,
            o.profile_picture == profile_picture,
            o.coordinates_id == coordinates_id,
            !o.deleted,
            o.created_at == o.updated_at,
            o.deleted_at == (Timestamp { secs: 0, nanos: 0 }),
    {
        let created = now();
        Organization {
            id: fresh_id(),
            org_name,
            profile_picture,
            coordinates_id,
            deleted: false,
            created_at: created,
            updated_at: created,
            deleted_at: Timestamp::epoch(),
        }
    }

    /// The record's identifier.
    pub fn id(&self) -> (id: Id)
        ensures
            id == self.id,
    {
        self.id
    }

    /// Persist a new organization record. Fails exactly when a record
    /// with the same identifier is already stored or the coordinate it
    /// references is not; on success the table grows by this record,
    /// which is also returned as stored.
    pub fn insert(db: &mut Db, rec: Organization) -> (r: Result<Organization, DbError>)
        requires
            old(db).wf(),
        ensures
            final(db).wf(),
            match r {
                Ok(c) => {
                    &&& !old(db).organizations.contains_id(rec.id)
                    &&& rec.refs_present(*old(db))
                    &&& c.same_value(rec)
                    &&& final(db).organizations@ == old(db).organizations@.push(rec)
                    &&& final(db).same_except_organizations(*old(db))
                },
                Err(e) => {
                    &&& e == DbError::ConstraintViolation
                    &&& (old(db).organizations.contains_id(rec.id) || !rec.refs_present(*old(db)))
                    &&& *final(db) == *old(db)
                },
            },
    {
        match rec.coordinates_id {
            Some(cid) => {
                if !db.coordinates.contains(cid) {
                    return Err(DbError::ConstraintViolation);
                }
            },
            None => {},
        }
        let copy = rec.clone();
        match db.organizations.insert(rec) {
            Ok(_) => {
                proof {
                    lemma_organizations_grow(*old(db), *db, rec);
                }
                Ok(copy)
            },
            Err(e) => Err(e),
        }
    }

    /// Replace the stored record that carries this record's identifier
    /// with this record, refreshing its update timestamp. Fails when no
    /// record with that identifier is stored or the coordinate it
    /// references is not; on success the record as stored — update
    /// timestamp included — is returned.
    pub fn update(db: &mut Db, rec: Organization) -> (r: Result<Organization, DbError>)
        requires
            old(db).wf(),
        ensures
            final(db).wf(),
            match r {
                Ok(c) => {
                    let i = old(db).organizations.index_of(rec.id);
                    let stored = final(db).organizations@[i];
                    &&& old(db).organizations.contains_id(rec.id)
                    &&& rec.refs_present(*old(db))
                    &&& stored.same_value(
                        Organization { updated_at: stored.updated_at, ..rec },
                    )
                    &&& c.same_value(stored)
                    &&& final(db).organizations@ == old(db).organizations@.update(i, stored)
                    &&& final(db).same_except_organizations(*old(db))
                },
                Err(e) => {
                    &&& *final(db) == *old(db)
                    &&& match e {
                        DbError::NotFound => !old(db).organizations.contains_id(rec.id),
                        DbError::ConstraintViolation => old(db).organizations.contains_id(rec.id)
                            && !rec.refs_present(*old(db)),
                    }
                },
            },
    {
        if !db.organizations.contains(rec.key()) {
            return Err(DbError::NotFound);
        }
        match rec.coordinates_id {
            Some(cid) => {
                if !db.coordinates.contains(cid) {
                    return Err(DbError::ConstraintViolation);
                }
            },
            None => {},
        }
        let mut stored = rec;
        stored.updated_at = now();
        let copy = stored.clone();
        match db.organizations.replace(stored) {
            Ok(_) => {
                proof {
                    lemma_organizations_swap(*old(db), *db, stored);
                }
                Ok(copy)
            },
            Err(e) => Err(e),
        }
    }

    /// Fetch the stored record with the given identifier, soft-deleted or
    /// not. Fails exactly when no record carries it.
    pub fn get_one_by_id(db: &Db, org_id: Id) -> (r: Result<Organization, DbError>)
        requires
            db.wf(),
        ensures
            match r {
                Ok(c) => {
                    &&& db.organizations.contains_id(org_id)
                    &&& c.same_value(db.organizations.row_at(org_id))
                },
                Err(e) => {
                    &&& e == DbError::NotFound
                    &&& !db.organizations.contains_id(org_id)
                },
            },
    {
        match db.organizations.get(org_id) {
            Some(row) => Ok(row.clone()),
            None => Err(DbError::NotFound),
        }
    }
}

/// Growing the organization table keeps every referential rule: the new
/// row's own reference was checked, and every reference into the table is
/// kept by growth.
proof fn lemma_organizations_grow(pre: Db, post: Db, rec: Organization)
    requires
        pre.wf(),
        rec.refs_present(pre),
        post.organizations@ == pre.organizations@.push(rec),
        post.same_except_organizations(pre),
    ensures
        post.refs_ok(),
{
    let n = pre.organizations@.len() as int;
    assert forall|i: int|
        0 <= i < post.organizations@.len() implies (#[trigger] post.organizations@[i]).refs_present(
        post,
    ) by {
        if i < n {
            assert(pre.organizations@[i].refs_present(pre));
        }
    }
    assert forall|i: int| 0 <= i < post.users@.len() implies (#[trigger] post.users@[i]).refs_present(
        post,
    ) by {
        let u = post.users@[i];
        assert(u.refs_present(pre));
        match u.org_id {
            Some(oid) => lemma_push_keeps_ids(pre.organizations@, rec, oid),
            None => {},
        }
    }
    assert forall|i: int|
        0 <= i < post.building_owners@.len() implies (
    #[trigger] post.building_owners@[i]).refs_present(post) by {
        let o = post.building_owners@[i];
        assert(o.refs_present(pre));
        match o.org_id {
            Some(oid) => lemma_push_keeps_ids(pre.organizations@, rec, oid),
            None => {},
        }
    }
    assert forall|i: int|
        0 <= i < post.buildings@.len() implies (#[trigger] post.buildings@[i]).refs_present(post) by {
        let b = post.buildings@[i];
        assert(b.refs_present(pre));
        lemma_push_keeps_ids(pre.organizations@, rec, b.org_id);
    }
}

/// Replacing an organization row by one with the same identifier keeps
/// every referential rule: the new row's own reference was checked, and
/// the table's identifier set does not change.
proof fn lemma_organizations_swap(pre: Db, post: Db, rec: Organization)
    requires
        pre.wf(),
        rec.refs_present(pre),
        pre.organizations.contains_id(rec.id),
        post.organizations@ == pre.organizations@.update(pre.organizations.index_of(rec.id), rec),
        post.same_except_organizations(pre),
    ensures
        post.refs_ok(),
{
    let i = pre.organizations.index_of(rec.id);
    assert(0 <= i < pre.organizations@.len() && pre.organizations@[i].rid() == rec.id);
    assert forall|j: int|
        0 <= j < post.organizations@.len() implies (#[trigger] post.organizations@[j]).refs_present(
        post,
    ) by {
        if j != i {
            assert(pre.organizations@[j].refs_present(pre));
        }
    }
    assert forall|j: int| 0 <= j < post.users@.len() implies (#[trigger] post.users@[j]).refs_present(
        post,
    ) by {
        let u = post.users@[j];
        assert(u.refs_present(pre));
        match u.org_id {
            Some(oid) => lemma_update_keeps_ids(pre.organizations@, i, rec, oid),
            None => {},
        }
    }
    assert forall|j: int|
        0 <= j < post.building_owners@.len() implies (
    #[trigger] post.building_owners@[j]).refs_present(post) by {
        let o = post.building_owners@[j];
        assert(o.refs_present(pre));
        match o.org_id {
            Some(oid) => lemma_update_keeps_ids(pre.organizations@, i, rec, oid),
            None => {},
        }
    }
    assert forall|j: int|
        0 <= j < post.buildings@.len() implies (#[trigger] post.buildings@[j]).refs_present(post) by {
        let b = post.buildings@[j];
        assert(b.refs_present(pre));
        lemma_update_keeps_ids(pre.organizations@, i, rec, b.org_id);
    }
}

impl Clone for Organization {
    /// A copy that agrees on every field with the value it was made from.
    fn clone(&self) -> (r: Self)
        ensures
            r.same_value(*self),
    {
        Organization {
            id: self.id,
            org_name: self.org_name.clone(),
            profile_picture: copy_bytes(&self.profile_picture),
            coordinates_id: self.coordinates_id,
            deleted: self.deleted,
            created_at: self.created_at,
            updated_at: self.updated_at,
            deleted_at: self.deleted_at,
        }
    }
}

impl PartialEq for Organization {
    /// Record equality: every field agrees, with timestamps compared at
    /// second precision only.
    fn eq(&self, other: &Self) -> (r: bool) {
        self.id == other.id && self.org_name == other.org_name && bytes_equal(
            &self.profile_picture,
            &other.profile_picture,
        ) && self.coordinates_id == other.coordinates_id && self.deleted == other.deleted
            && self.created_at.at_same_second(&other.created_at)
            && self.updated_at.at_same_second(&other.updated_at)
            && self.deleted_at.at_same_second(&other.deleted_at)
    }
}

impl vstd::std_specs::cmp::PartialEqSpecImpl for Organization {
    open spec fn obeys_eq_spec() -> bool {
        true
    }

    open spec fn eq_spec(&self, other: &Self) -> bool {
        &&& self.id == other.id
        &&& self.org_name@ == other.org_name@
        &&& self.profile_picture@ == other.profile_picture@
        &&& self.coordinates_id == other.coordinates_id
        &&& self.deleted == other.deleted
        &&& self.created_at.same_second(other.created_at)
        &&& self.updated_at.same_second(other.updated_at)
        &&& self.deleted_at.same_second(other.deleted_at)
    }
}

} // verus!
