//! Record identifiers.
//!
//! Every record is keyed by a 128-bit identifier drawn at construction.
//! The identifier is the value of a version-4 UUID; the library only ever
//! compares identifiers, so it keeps the 128 bits themselves.

use vstd::prelude::*;

verus! {

/// A record identifier: the 128 bits of a version-4 UUID.
pub type Id = u128;

/// Relies on uuid::Uuid::new_v4 for a freshly generated random identifier.
/// The value is random, so nothing is promised of it.
#[verifier::external_body]
pub(crate) fn fresh_id() -> (id: Id)
{
    uuid::Uuid::new_v4().as_u128()
}

} // verus!
