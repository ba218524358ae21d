//! Users: accounts with a permission level, contact fields and a hashed
//! password. The plaintext password is hashed at construction and the
//! hashed form is the only form ever stored or compared; changing the
//! password re-verifies the old plaintext first.

use vstd::prelude::*;

use crate::db::Db;
use crate::ident::{fresh_id, Id};
use crate::password::{acceptable_password, check_password, hash_password, password_matches};
use crate::store::{lemma_push_keeps_ids, lemma_update_keeps_ids, opt_present, DbError, Record};
use crate::time::{now, Timestamp};

verus! {

/// A user account. The `password` field holds the stored credential, never
/// a plaintext.
#[derive(Debug)]
pub struct User {
    pub id: Id,
    pub org_id: Option<Id>,
    pub permission: i16,
    pub full_name: String,
    pub email: String,
    pub password: String,
    pub job_title: String,
    pub profile_picture: String,
    pub deleted: bool,
    pub created_at: Timestamp,
    pub updated_at: Timestamp,
    pub deleted_at: Timestamp,
}

impl Record for User {
    open spec fn rid(&self) -> Id {
        self.id
    }

    open spec fn is_deleted(&self) -> bool {
        self.deleted
    }

    fn key(&self) -> (k: Id) {
        self.id
    }
}

impl Clone for User {
    /// An exact copy, field for field.
    fn clone(&self) -> (r: Self)
        ensures
            r == *self,
    {
        User {
            id: self.id,
            org_id: self.org_id,
            permission: self.permission,
            full_name: self.full_name.clone(),
            email: self.email.clone(),
            password: self.password.clone(),
            job_title: self.job_title.clone(),
            profile_picture: self.profile_picture.clone(),
            deleted: self.deleted,
            created_at: self.created_at,
            updated_at: self.updated_at,
            deleted_at: self.deleted_at,
        }
    }
}

impl PartialEq for User {
    /// Record equality: every field agrees — the stored credential
    /// included — with timestamps compared at second precision only.
    fn eq(&self, other: &Self) -> (r: bool) {
        self.id == other.id && self.org_id == other.org_id && self.permission == other.permission
            && self.full_name == other.full_name && self.email == other.email && self.password
            == other.password && self.job_title == other.job_title && self.profile_picture
            == other.profile_picture && self.deleted == other.deleted
            && self.created_at.at_same_second(&other.created_at)
            && self.updated_at.at_same_second(&other.updated_at)
            && self.deleted_at.at_same_second(&other.deleted_at)
    }
}

impl vstd::std_specs::cmp::PartialEqSpecImpl for User {
    open spec fn obeys_eq_spec() -> bool {
        true
    }

    open spec fn eq_spec(&self, other: &Self) -> bool {
        &&& self.id == other.id
        &&& self.org_id == other.org_id
        &&& self.permission == other.permission
        &&& self.full_name@ == other.full_name@
        &&& self.email@ == other.email@
        &&& self.password@ == other.password@
        &&& self.job_title@ == other.job_title@
        &&& self.profile_picture@ == other.profile_picture@
        &&& self.deleted == other.deleted
        &&& self.created_at.same_second(other.created_at)
        &&& self.updated_at.same_second(other.updated_at)
        &&& self.deleted_at.same_second(other.deleted_at)
    }
}

impl User {
    /// The references this record makes, each satisfied in `db`: the
    /// optional organization reference.
    pub open spec fn refs_present(self, db: Db) -> bool {
        opt_present(db.organizations, self.org_id)
    }

    /// Construct a user account: a fresh identifier, the given business
    /// fields, the password replaced by its hashed form, not deleted,
    /// creation and update timestamps both set to the same current time,
    /// and `deleted_at` at the epoch sentinel. Fails exactly when the
    /// hasher does not accept the plaintext; no account is produced then.
    pub fn new(
        permission: i16,
        full_name: String,
        email: String,
        password: String,
        job_title: String,
        profile_picture: String,
        org_id: Option<Id>,
    ) -> (r: Option<User>)
        ensures
            r is Some <==> acceptable_password(password@),
            r matches Some(u) ==> {
                &&& u.org_id == org_id
                &&& u.permission == permission
                &&& u.full_name == full_name
                &&& u.email == email
                &&& u.job_title == job_title
                &&& u.profile_picture == profile_picture
                &&& !u.deleted
                &&& u.created_at == u.updated_at
                &&& u.deleted_at == (Timestamp { secs: 0, nanos: 0 })
                &&& password_matches(password@, u.password@)
                &&& u.password@.len() > 0
                &&& u.password@[0] == '$'
            },
    {
        match hash_password(password.as_str()) {
            Some(stored) => {
                let created = now();
                Some(
                    User {
                        id: fresh_id(),
                        org_id,
                        permission,
                        full_name,
                        email,
                        password: stored,
                        job_title,
                        profile_picture,
                        deleted: false,
                        created_at: created,
                        updated_at: created,
                        deleted_at: Timestamp::epoch(),
                    },
                )
            },
            None => None,
        }
    }

    /// The stored credential.
    pub fn encrypted_password(&self) -> (r: &String)
        ensures
            r == self.password,
    {
        &self.password
    }

    /// Replace the stored credential: verify the old plaintext against the
    /// stored credential and, exactly when it matches and the hasher
    /// accepts the new plaintext, store a hash of the new plaintext. On
    /// failure the account is unchanged and the error does not say which
    /// step failed.
    pub fn change_password(&mut self, old_password_raw: String, new_password_raw: String) -> (r:
        Result<(), String>)
        ensures
            r is Ok <==> (password_matches(old_password_raw@, old(self).password@)
                && acceptable_password(new_password_raw@)),
            r is Ok ==> {
                &&& *final(self) == (User { password: final(self).password, ..*old(self) })
                &&& password_matches(new_password_raw@, final(self).password@)
                &&& final(self).password@.len() > 0
                &&& final(self).password@[0] == '$'
            },
            r matches Err(m) ==> *final(self) == *old(self) && m@ == "Wrong password entered"@,
    {
        if check_password(old_password_raw.as_str(), self.password.as_str()) {
            match hash_password(new_password_raw.as_str()) {
                Some(stored) => {
                    self.password = stored;
                    Ok(())
                },
                None => Err("Wrong password entered".to_string()),
            }
        } else {
            Err("Wrong password entered".to_string())
        }
    }

    /// The record's identifier.
    pub fn id(&self) -> (id: Id)
        ensures
            id == self.id,
    {
        self.id
    }

    /// Persist a new user record. Fails exactly when a record with the
    /// same identifier is already stored or the organization it
    /// references is not; on success the table grows by this record,
    /// which is also returned as stored.
    pub fn insert(db: &mut Db, rec: User) -> (r: Result<User, DbError>)
        requires
            old(db).wf(),
        ensures
            final(db).wf(),
            match r {
                Ok(c) => {
                    &&& !old(db).users.contains_id(rec.id)
                    &&& rec.refs_present(*old(db))
                    &&& c == rec
                    &&& final(db).users@ == old(db).users@.push(rec)
                    &&& final(db).same_except_users(*old(db))
                },
                Err(e) => {
                    &&& e == DbError::ConstraintViolation
                    &&& (old(db).users.contains_id(rec.id) || !rec.refs_present(*old(db)))
                    &&& *final(db) == *old(db)
                },
            },
    {
        match rec.org_id {
            Some(oid) => {
                if !db.organizations.contains(oid) {
                    return Err(DbError::ConstraintViolation);
                }
            },
            None => {},
        }
        let copy = rec.clone();
        match db.users.insert(rec) {
            Ok(_) => {
                proof {
                    lemma_users_grow(*old(db), *db, rec);
                }
                Ok(copy)
            },
            Err(e) => Err(e),
        }
    }

    /// Replace the stored record that carries this record's identifier
    /// with this record, refreshing its update timestamp. Fails when no
    /// record with that identifier is stored or the organization it
    /// references is not; on success the record as stored — update
    /// timestamp included — is returned.
    pub fn update(db: &mut Db, rec: User) -> (r: Result<User, DbError>)
        requires
            old(db).wf(),
        ensures
            final(db).wf(),
            match r {
                Ok(c) => {
                    &&& old(db).users.contains_id(rec.id)
                    &&& rec.refs_present(*old(db))
                    &&& c == (User { updated_at: c.updated_at, ..rec })
                    &&& final(db).users@ == old(db).users@.update(
                        old(db).users.index_of(rec.id),
                        c,
                    )
                    &&& final(db).same_except_users(*old(db))
                },
                Err(e) => {
                    &&& *final(db) == *old(db)
                    &&& match e {
                        DbError::NotFound => !old(db).users.contains_id(rec.id),
                        DbError::ConstraintViolation => old(db).users.contains_id(rec.id)
                            && !rec.refs_present(*old(db)),
                    }
                },
            },
    {
        if !db.users.contains(rec.key()) {
            return Err(DbError::NotFound);
        }
        match rec.org_id {
            Some(oid) => {
                if !db.organizations.contains(oid) {
                    return Err(DbError::ConstraintViolation);
                }
            },
            None => {},
        }
        let mut stored = rec;
        stored.updated_at = now();
        let copy = stored.clone();
        match db.users.replace(stored) {
            Ok(_) => {
                proof {
                    lemma_users_swap(*old(db), *db, copy);
                }
                Ok(copy)
            },
            Err(e) => Err(e),
        }
    }

    /// Fetch the stored record with the given identifier, soft-deleted or
    /// not. Fails exactly when no record carries it.
    pub fn get_one_by_id(db: &Db, user_id: Id) -> (r: Result<User, DbError>)
        requires
            db.wf(),
        ensures
            match r {
                Ok(c) => {
                    &&& db.users.contains_id(user_id)
                    &&& c == db.users.row_at(user_id)
                },
                Err(e) => {
                    &&& e == DbError::NotFound
                    &&& !db.users.contains_id(user_id)
                },
            },
    {
        match db.users.get(user_id) {
            Some(row) => Ok(row.clone()),
            None => Err(DbError::NotFound),
        }
    }

    /// Fetch every stored record, in storage order.
    pub fn get_all(db: &Db) -> (r: Vec<User>)
        ensures
            r@ == db.users@,
    {
        let mut r: Vec<User> = Vec::new();
        let mut i: usize = 0;
        let n = db.users.len();
        while i < n
            invariant
                n == db.users@.len(),
                i <= n,
                r@ == db.users@.subrange(0, i as int),
            decreases n - i,
        {
            r.push(db.users.at(i).clone());
            proof {
                assert(r@ =~= db.users@.subrange(0, i + 1));
            }
            i += 1;
        }
        proof {
            assert(r@ =~= db.users@);
        }
        r
    }
}

/// Growing the user table keeps every referential rule: the new row's own
/// reference was checked, and every reference into the table is kept by
/// growth.
proof fn lemma_users_grow(pre: Db, post: Db, rec: User)
    requires
        pre.wf(),
        rec.refs_present(pre),
        post.users@ == pre.users@.push(rec),
        post.same_except_users(pre),
    ensures
        post.refs_ok(),
{
    let n = pre.users@.len() as int;
    assert forall|i: int| 0 <= i < post.users@.len() implies (#[trigger] post.users@[i]).refs_present(
        post,
    ) by {
        if i < n {
            assert(pre.users@[i].refs_present(pre));
        }
    }
    assert forall|i: int|
        0 <= i < post.building_owners@.len() implies (
    #[trigger] post.building_owners@[i]).refs_present(post) by {
        let o = post.building_owners@[i];
        assert(o.refs_present(pre));
        match o.linked_user_id {
            Some(uid) => lemma_push_keeps_ids(pre.users@, rec, uid),
            None => {},
        }
    }
    assert forall|i: int|
        0 <= i < post.buildings@.len() implies (#[trigger] post.buildings@[i]).refs_present(post) by {
        let b = post.buildings@[i];
        assert(b.refs_present(pre));
        lemma_push_keeps_ids(pre.users@, rec, b.respondant_id);
    }
    assert forall|i: int|
        0 <= i < post.entities_notes@.len() implies (
    #[trigger] post.entities_notes@[i]).refs_present(post) by {
        let m = post.entities_notes@[i];
        assert(m.refs_present(pre));
        lemma_push_keeps_ids(pre.users@, rec, m.user_id);
    }
    assert forall|i: int|
        0 <= i < post.entities_history@.len() implies (
    #[trigger] post.entities_history@[i]).refs_present(post) by {
        let h = post.entities_history@[i];
        assert(h.refs_present(pre));
        lemma_push_keeps_ids(pre.users@, rec, h.user_id);
    }
}

/// Replacing a user row by one with the same identifier keeps every
/// referential rule: the new row's own reference was checked, and the
/// table's identifier set does not change.
proof fn lemma_users_swap(pre: Db, post: Db, rec: User)
    requires
        pre.wf(),
        rec.refs_present(pre),
        pre.users.contains_id(rec.id),
        post.users@ == pre.users@.update(pre.users.index_of(rec.id), rec),
        post.same_except_users(pre),
    ensures
        post.refs_ok(),
{
    let i = pre.users.index_of(rec.id);
    assert(0 <= i < pre.users@.len() && pre.users@[i].rid() == rec.id);
    assert forall|j: int| 0 <= j < post.users@.len() implies (#[trigger] post.users@[j]).refs_present(
        post,
    ) by {
        if j != i {
            assert(pre.users@[j].refs_present(pre));
        }
    }
    assert forall|j: int|
        0 <= j < post.building_owners@.len() implies (
    #[trigger] post.building_owners@[j]).refs_present(post) by {
        let o = post.building_owners@[j];
        assert(o.refs_present(pre));
        match o.linked_user_id {
            Some(uid) => lemma_update_keeps_ids(pre.users@, i, rec, uid),
            None => {},
        }
    }
    assert forall|j: int|
        0 <= j < post.buildings@.len() implies (#[trigger] post.buildings@[j]).refs_present(post) by {
        let b = post.buildings@[j];
        assert(b.refs_present(pre));
        lemma_update_keeps_ids(pre.users@, i, rec, b.respondant_id);
    }
    assert forall|j: int|
        0 <= j < post.entities_notes@.len() implies (
    #[trigger] post.entities_notes@[j]).refs_present(post) by {
        let m = post.entities_notes@[j];
        assert(m.refs_present(pre));
        lemma_update_keeps_ids(pre.users@, i, rec, m.user_id);
    }
    assert forall|j: int|
        0 <= j < post.entities_history@.len() implies (
    #[trigger] post.entities_history@[j]).refs_present(post) by {
        let h = post.entities_history@[j];
        assert(h.refs_present(pre));
        lemma_update_keeps_ids(pre.users@, i, rec, h.user_id);
    }
}

} // verus!
