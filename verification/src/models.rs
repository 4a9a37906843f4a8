//! Data model of the content service: users, posts, and the request and
//! response shapes that cross the service boundary.
//!
//! Timestamps are carried as unix seconds. A user's stored password hash is
//! opaque and never leaves this boundary: the only serialized projection of a
//! user is `UserSafe`, which has no hash field.

use vstd::prelude::*;
use crate::password::{bcrypt_hash, bcrypt_check, bcrypt_hash_shape, password_verifies};

verus! {

/// A stored user row. `password_hash` is the bcrypt hash of the user's
/// password, or `None` for a row created without credentials.
#[derive(Debug)]
pub struct User {
    pub id: i32,
    pub username: String,
    pub email: String,
    /// Creation time, unix seconds.
    pub created_at: i64,
    pub password_hash: Option<String>,
}

/// Request body for registering a user.
#[derive(Debug)]
pub struct CreateUser {
    pub username: String,
    pub email: String,
    pub password: String,
}

/// Request body for updating a user's profile; `None` keeps the stored value.
#[derive(Debug)]
pub struct UpdateUser {
    pub username: Option<String>,
    pub email: Option<String>,
}

/// Login request: the credential payload.
#[derive(Debug)]
pub struct LoginRequest {
    pub username: String,
    pub password: String,
}

/// The projection of a user that responses may carry: no hash field.
#[derive(Debug)]
pub struct UserSafe {
    pub id: i32,
    pub username: String,
    pub email: String,
    /// Creation time, unix seconds.
    pub created_at: i64,
}

/// Successful login: a bearer token and the safe user projection.
#[derive(Debug)]
pub struct LoginResponse {
    pub token: String,
    pub user: UserSafe,
}

/// A stored post. `user_id` is the owning user, set once at creation from the
/// authenticated creator's identity and immutable thereafter.
#[derive(Debug)]
pub struct Post {
    pub id: i32,
    pub title: String,
    pub body: String,
    pub user_id: i32,
    /// Creation time, unix seconds.
    pub created_at: i64,
}

/// Request body for creating a post. Its `user_id` field is client-supplied
/// and is never trusted as the owner; the owner comes from the authenticated
/// identity.
#[derive(Debug)]
pub struct CreatePost {
    pub title: String,
    pub body: String,
    pub user_id: i32,
}

/// Request body for updating a post; `None` keeps the stored value.
#[derive(Debug)]
pub struct UpdatePost {
    pub title: Option<String>,
    pub body: Option<String>,
}

/// The record inserted into the store for a new user: it carries the
/// password hash, never the plaintext.
#[derive(Debug)]
pub struct NewUserRecord {
    pub username: String,
    pub email: String,
    pub password_hash: String,
}

/// The record inserted into the store for a new post. Its owner id is fixed
/// from the authenticated creator's identity before it is built.
#[derive(Debug)]
pub struct NewPostRecord {
    pub title: String,
    pub body: String,
    pub user_id: i32,
}

/// An error payload as the service reports it.
#[derive(Debug)]
pub struct ErrorResponse {
    pub error: String,
    pub message: String,
    pub details: Option<String>,
}

/// A plain success payload.
#[derive(Debug)]
pub struct SuccessResponse {
    pub message: String,
}

/// Whether `s` carries the same visible fields as `u`: the safe projection.
pub open spec fn is_safe_view(s: UserSafe, u: User) -> bool {
    &&& s.id == u.id
    &&& s.username == u.username
    &&& s.email == u.email
    &&& s.created_at == u.created_at
}

/// Whether `u`'s stored credentials accept the plaintext `password`.
pub open spec fn user_accepts_password(u: User, password: Seq<char>) -> bool {
    u.password_hash matches Some(h) && password_verifies(password, h@)
}

impl User {
    /// Hashes a plaintext password for storage, with a fresh random salt, so
    /// that verification accepts exactly this password against the result.
    /// The result is an opaque algorithm-tagged string, never the plaintext.
    pub fn hash_password(password: &str) -> (r: Result<String, bcrypt::BcryptError>)
        ensures
            r matches Ok(h) ==> password_verifies(password@, h@) && bcrypt_hash_shape(h@),
    {
        bcrypt_hash(password)
    }

    /// Checks a plaintext password against this user's stored hash. Never
    /// fails: a missing hash or a malformed hash is a non-match.
    pub fn verify_password(&self, password: &str) -> (r: bool)
        ensures
            r == user_accepts_password(*self, password@),
    {
        match &self.password_hash {
            Some(hash) => bcrypt_check(password, hash.as_str()),
            None => false,
        }
    }
}

/// A password stored by way of `User::hash_password` is accepted by
/// `User::verify_password` for the same plaintext: what hashing guarantees of
/// its output is exactly what verification checks.
pub proof fn lemma_stored_hash_accepted(u: User, password: Seq<char>, hash: String)
    requires
        password_verifies(password, hash@),
        u.password_hash == Some(hash),
    ensures
        user_accepts_password(u, password),
{
}

impl From<User> for UserSafe {
    /// Drops the password hash, keeping every other field.
    fn from(user: User) -> (r: UserSafe) {
        UserSafe {
            id: user.id,
            username: user.username,
            email: user.email,
            created_at: user.created_at,
        }
    }
}

impl vstd::std_specs::convert::FromSpecImpl<User> for UserSafe {
    open spec fn obeys_from_spec() -> bool {
        true
    }

    open spec fn from_spec(u: User) -> UserSafe {
        UserSafe { id: u.id, username: u.username, email: u.email, created_at: u.created_at }
    }
}

} // verus!
