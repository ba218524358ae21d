//! Password hashing and verification.
//!
//! Plaintext passwords are never stored: a one-way hashing capability turns
//! a plaintext into an opaque stored credential, and a verifier checks a
//! plaintext against a stored credential. Whether a plaintext matches a
//! stored credential, and whether a plaintext is acceptable to the hasher
//! at all, are functions of those values alone, so each gets a name that
//! the contracts share.

use vstd::prelude::*;

verus! {

/// Whether `plain` verifies against the stored credential `stored`: the
/// result of parsing `stored` as a PHC string and checking `plain` against
/// it. False when `stored` is not a well-formed credential.
pub uninterp spec fn password_matches(plain: Seq<char>, stored: Seq<char>) -> bool;

/// Whether the hasher accepts `plain` at all (it rejects passwords whose
/// normalized length falls outside its fixed bounds).
pub uninterp spec fn acceptable_password(plain: Seq<char>) -> bool;

/// Relies on libreauth::pass::HashBuilder::new and Hasher::hash: hashing
/// succeeds exactly when the password's normalized length lies within the
/// default bounds, and on success yields a PHC-formatted credential (which
/// always begins with '$') that verifies against the same plaintext.
#[verifier::external_body]
pub(crate) fn hash_password(plain: &str) -> (r: Option<String>)
    ensures
        r is Some <==> acceptable_password(plain@),
        r matches Some(stored) ==> {
            &&& password_matches(plain@, stored@)
            &&& stored@.len() > 0
            &&& stored@[0] == '$'
        },
{
    match libreauth::pass::HashBuilder::new().finalize() {
        Ok(hasher) => match hasher.hash(plain) {
            Ok(stored) => Some(stored),
            Err(_) => None,
        },
        Err(_) => None,
    }
}

/// Relies on libreauth::pass::HashBuilder::from_phc and Hasher::is_valid:
/// parse the stored credential and check the plaintext against it; a
/// credential that does not parse matches nothing. Both steps depend only
/// on the two arguments.
#[verifier::external_body]
pub(crate) fn check_password(plain: &str, stored: &str) -> (r: bool)
    ensures
        r == password_matches(plain@, stored@),
{
    match libreauth::pass::HashBuilder::from_phc(stored) {
        Ok(checker) => checker.is_valid(plain),
        Err(_) => false,
    }
}

/// A stored credential is a PHC string, which always begins with '$'; a
/// plaintext that does not begin with '$' therefore never equals the
/// credential that was stored for it.
pub proof fn lemma_credential_is_not_the_plaintext(stored: Seq<char>, plain: Seq<char>)
    requires
        stored.len() > 0,
        stored[0] == '$',
        plain.len() == 0 || plain[0] != '$',
    ensures
        stored != plain,
{
}

} // verus!
