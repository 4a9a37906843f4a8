//! Credential hashing: a salted, slow, one-way transform of plaintext
//! passwords, and its verification.
//!
//! The transform itself is bcrypt's; this module pins down what the rest of
//! the core may rely on. `password_verifies` names bcrypt's verification
//! outcome: it is a deterministic function of the plaintext and the hash
//! string, because the salt and the cost are embedded in the hash. Hashing
//! draws a fresh random salt per call, so nothing is named about which hash
//! comes back, only that it verifies the password it was produced for.

use vstd::prelude::*;

verus! {

/// Whether bcrypt verification accepts `password` against the hash string
/// `hash`. Deterministic in its arguments: the salt, cost and version that
/// verification uses are all embedded in `hash`.
pub uninterp spec fn password_verifies(password: Seq<char>, hash: Seq<char>) -> bool;

/// The algorithm-tagged shape every produced hash has: exactly 60 characters,
/// opening with the version tag `2b` and the default cost `12`, which is
/// where verification reads its parameters from. The salt and digest follow
/// the third `$`.
pub open spec fn bcrypt_hash_shape(h: Seq<char>) -> bool {
    &&& h.len() == 60
    &&& h[0] == '$'
    &&& h[1] == '2'
    &&& h[2] == 'b'
    &&& h[3] == '$'
    &&& h[4] == '1'
    &&& h[5] == '2'
    &&& h[6] == '$'
}

/// The outside error type of bcrypt operations; opaque to the core.
#[verifier::external_type_specification]
#[verifier::external_body]
pub struct ExBcryptError(bcrypt::BcryptError);

/// Relies on bcrypt::hash with `DEFAULT_COST`: the salt is drawn fresh from
/// OS randomness per call and embedded in the output, and bcrypt::verify
/// recomputes the hash from a password and that embedded salt and cost, so a
/// hash it returns verifies the password it was given. The output is always
/// the 60-character version-2b string `$2b$12$<salt><digest>`. Fails only
/// when the OS randomness source fails.
#[verifier::external_body]
pub(crate) fn bcrypt_hash(password: &str) -> (r: Result<String, bcrypt::BcryptError>)
    ensures
        r matches Ok(h) ==> password_verifies(password@, h@) && bcrypt_hash_shape(h@),
{
    bcrypt::hash(password, bcrypt::DEFAULT_COST)
}

/// Relies on bcrypt::verify: deterministic in the password and the hash
/// string; any error (for example a malformed hash) is reported as a
/// non-match, as `password_verifies` names the combined outcome.
#[verifier::external_body]
pub(crate) fn bcrypt_check(password: &str, hash: &str) -> (r: bool)
    ensures
        r == password_verifies(password@, hash@),
{
    bcrypt::verify(password, hash).unwrap_or(false)
}

} // verus!
