//! Authorization policy: an authenticated identity may mutate a resource
//! exactly when it owns it.

use vstd::prelude::*;
use crate::errors::ApiError;

verus! {

/// The result of successful authentication: carries only the subject user id,
/// scoped to one request.
#[derive(Clone, Copy, Debug, PartialEq, Eq, Structural)]
pub struct AuthUser {
    pub user_id: i32,
}

/// Decides whether `user` may mutate a resource owned by `resource_owner`.
///
/// The owner id handed in here must come from the persisted resource or from
/// the identity itself, never from a client-supplied path or body field.
pub fn authorize(user: &AuthUser, resource_owner: i32) -> (allowed: bool)
    ensures
        allowed == (user.user_id == resource_owner),
{
    user.user_id == resource_owner
}

/// The check-then-act gate applied before every mutate, update or delete of
/// an owned resource: allows the operation exactly when `user` owns the
/// resource, and on denial reports `Forbidden`, so the caller performs no
/// persistence side effect.
pub fn authorize_mutation(user: &AuthUser, resource_owner: i32) -> (r: Result<(), ApiError>)
    ensures
        r is Ok <==> user.user_id == resource_owner,
        r matches Err(e) ==> e == ApiError::Forbidden,
{
    if user.user_id == resource_owner {
        Ok(())
    } else {
        Err(ApiError::Forbidden)
    }
}

} // verus!
