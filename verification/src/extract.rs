//! Auth extractor: turns the raw value of an `Authorization` header (or its
//! absence) into an authenticated identity, or rejects the request.
//!
//! Extraction is a pure, single-shot decision over request-local data plus
//! the process-wide signing configuration and a clock reading: no persistence
//! lookup is made, so a deleted user's still-valid token continues to
//! authenticate until it expires.

use vstd::prelude::*;
use crate::errors::ApiError;
use crate::policy::AuthUser;
use crate::token::{AuthConfig, accepted_subject, token_accepted};

verus! {

/// Whether a header value starts with the literal `"Bearer "`.
pub open spec fn has_bearer_prefix(h: Seq<char>) -> bool {
    &&& h.len() >= 7
    &&& h[0] == 'B'
    &&& h[1] == 'e'
    &&& h[2] == 'a'
    &&& h[3] == 'r'
    &&& h[4] == 'e'
    &&& h[5] == 'r'
    &&& h[6] == ' '
}

/// The token part of a header value: everything after the `"Bearer "` prefix.
pub open spec fn bearer_token_of(h: Seq<char>) -> Seq<char> {
    h.subrange(7, h.len() as int)
}

/// Whether a request with header value `header` (or none) authenticates as
/// subject `sub` at time `now` under secret `secret`: the header must be
/// present, carry the `"Bearer "` prefix, and its token part must be accepted.
pub open spec fn request_authenticates(
    header: Option<Seq<char>>,
    secret: Seq<u8>,
    now: int,
    sub: int,
) -> bool {
    &&& header matches Some(h)
    &&& has_bearer_prefix(h)
    &&& accepted_subject(bearer_token_of(h), secret, now) == Some(sub)
}

/// Strips the literal `"Bearer "` prefix, or reports that it is absent.
fn strip_bearer(header: &str) -> (r: Option<&str>)
    ensures
        match r {
            Some(t) => has_bearer_prefix(header@) && t@ == bearer_token_of(header@),
            None => !has_bearer_prefix(header@),
        },
{
    let len = header.unicode_len();
    if len < 7 {
        return None;
    }
    if header.get_char(0) == 'B' && header.get_char(1) == 'e' && header.get_char(2) == 'a'
        && header.get_char(3) == 'r' && header.get_char(4) == 'e' && header.get_char(5) == 'r'
        && header.get_char(6) == ' ' {
        Some(header.substring_char(7, len))
    } else {
        None
    }
}

/// Produces an authenticated identity from the raw `Authorization` header
/// value, or rejects the request.
///
/// A missing header, a header without the literal `"Bearer "` prefix, and a
/// token that fails decoding or has expired all yield the same undetailed
/// `Unauthenticated` rejection. On success the identity wraps the claims'
/// subject.
pub fn authenticate(header: Option<&str>, config: &AuthConfig, now: u64) -> (r: Result<
    AuthUser,
    ApiError,
>)
    ensures
        r matches Ok(u) ==> request_authenticates(
            match header {
                Some(h) => Some(h@),
                None => None,
            },
            config.secret@,
            now as int,
            u.user_id as int,
        ),
        r is Err <==> !(header matches Some(h) && has_bearer_prefix(h@) && token_accepted(
            bearer_token_of(h@),
            config.secret@,
            now as int,
        )),
        r matches Err(e) ==> e == ApiError::Unauthenticated,
{
    let raw = match header {
        Some(h) => h,
        None => {
            return Err(ApiError::Unauthenticated);
        },
    };
    let token = match strip_bearer(raw) {
        Some(t) => t,
        None => {
            return Err(ApiError::Unauthenticated);
        },
    };
    match crate::token::decode_token(token, config, now) {
        Ok(claims) => Ok(AuthUser { user_id: claims.sub }),
        Err(_) => Err(ApiError::Unauthenticated),
    }
}

} // verus!
