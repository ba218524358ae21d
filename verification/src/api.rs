//! The registration entry point a server exposes.
//!
//! Registering an organization persists its first user; the organization
//! record and the invited users are collected but not yet persisted here.

use vstd::prelude::*;

use crate::building_owners::BuildingOwner;
use crate::db::Db;
use crate::users::User;

verus! {

/// An error of the registration API. No failure is reported yet — a user
/// whose insert is refused is simply not persisted — so no call returns
/// this error.
#[derive(Clone, Copy, Debug, PartialEq, Eq, Structural)]
pub enum APIError {
    Rejected,
}

/// Register a new organization: persist its first user. The organization
/// record and the invited users are accepted but not yet persisted. The
/// call always succeeds; the user is stored exactly when no record with
/// its identifier exists and its organization reference is satisfied.
pub fn register_new_organisation(
    db: &mut Db,
    user: User,
    organization: BuildingOwner,
    invites: Vec<User>,
) -> (r: Result<(), APIError>)
    requires
        old(db).wf(),
    ensures
        final(db).wf(),
        r is Ok,
        if !old(db).users.contains_id(user.id) && user.refs_present(*old(db)) {
            &&& final(db).users@ == old(db).users@.push(user)
            &&& final(db).same_except_users(*old(db))
        } else {
            *final(db) == *old(db)
        },
{
    let _ = User::insert(db, user);
    Ok(())
}

} // verus!
