//! Password hashing and verification, over the bcrypt algorithm.
//!
//! What bcrypt computes is not restated here; its verification verdict is
//! given a name, `bcrypt_verdict`, and the two trusted wrappers state how
//! `bcrypt::hash` and `bcrypt::verify` relate to that name.
use vstd::prelude::*;

verus! {

/// What `bcrypt::verify(password, hash)` returns: `Some(b)` when the hash
/// parses and the password matches (`b == true`) or not, `None` when the
/// hash is malformed. Deterministic in its two arguments, since the salt and
/// cost are embedded in the hash string.
pub uninterp spec fn bcrypt_verdict(password: Seq<char>, hash: Seq<char>) -> Option<bool>;

/// The shape of every string `bcrypt::hash` produces: 60 characters, opening
/// with `$2`.
pub open spec fn is_bcrypt_hash(s: Seq<char>) -> bool {
    s.len() == 60 && s[0] == '$' && s[1] == '2'
}

/// The cost factor the registration flow hashes with.
pub const HASH_COST: u32 = 10;

/// The cost factor the password-reset mutation hashes with.
pub const DEFAULT_COST: u32 = 12;

/// Relies on bcrypt::hash: on success the result is a 60-character hash
/// string opening with `$2`, and bcrypt::verify accepts the same password
/// against it.
#[verifier::external_body]
pub(crate) fn hash_password(password: &str, cost: u32) -> (r: Result<String, ()>)
    ensures
        r matches Ok(h) ==> is_bcrypt_hash(h@) && bcrypt_verdict(password@, h@) == Some(true),
{
    match bcrypt::hash(password, cost) {
        Ok(h) => Ok(h),
        Err(_) => Err(()),
    }
}

/// Relies on bcrypt::verify: deterministic in the password and the hash;
/// reports whether the password matches, or an error when the hash does not
/// parse as a bcrypt hash.
#[verifier::external_body]
pub(crate) fn check_password(password: &str, hash: &str) -> (r: Result<bool, ()>)
    ensures
        (match r {
            Ok(b) => Some(b),
            Err(_) => None,
        }) == bcrypt_verdict(password@, hash@),
{
    match bcrypt::verify(password, hash) {
        Ok(b) => Ok(b),
        Err(_) => Err(()),
    }
}

} // verus!
