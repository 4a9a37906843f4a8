//! The identity claim set carried inside a token.

use vstd::prelude::*;

verus! {

/// Identity claims: immutable once constructed, built at issuance and
/// discarded after single-request use.
#[derive(Clone, Copy, Debug, PartialEq, Eq, Structural)]
pub struct Claims {
    /// Subject: the user id this token identifies.
    pub sub: i32,
    /// Expiration time, unix seconds; the token is dead once this has passed.
    pub exp: u64,
    /// Issuance time, unix seconds.
    pub iat: u64,
}

} // verus!
