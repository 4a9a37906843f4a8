//! The decisions the resource handlers make, separated from the transport
//! and the store: each function here takes the rows the store returned, or
//! the request bodies the transport parsed, as plain values, decides, and
//! says exactly what it decided.

use vstd::prelude::*;
use crate::errors::ApiError;
use crate::models::{
    CreatePost, CreateUser, LoginRequest, LoginResponse, NewPostRecord, NewUserRecord, Post,
    SuccessResponse, UpdatePost, UpdateUser, User, UserSafe, is_safe_view, user_accepts_password,
};
use crate::password::{bcrypt_hash_shape, password_verifies};
use crate::policy::AuthUser;
use crate::token::{AuthConfig, decoded_claims, encoded_token, generate_token};

verus! {

/// Whether a fetched row and a presented password together form acceptable
/// login credentials: the row must exist and its stored hash must accept the
/// password.
pub open spec fn credentials_accepted(row: Option<User>, password: Seq<char>) -> bool {
    row matches Some(u) && user_accepts_password(u, password)
}

/// The user list response: the rows as fetched, or `NotFound` when there are
/// none.
pub fn users_list_response(users: Vec<UserSafe>) -> (r: Result<Vec<UserSafe>, ApiError>)
    ensures
        r is Ok <==> users@.len() > 0,
        r matches Ok(v) ==> v == users,
        r matches Err(e) ==> e == ApiError::NotFound,
{
    if users.len() == 0 {
        Err(ApiError::NotFound)
    } else {
        Ok(users)
    }
}

/// The single-user response: the row as fetched, or `NotFound` when the
/// lookup came back empty.
pub fn user_found_response(row: Option<UserSafe>) -> (r: Result<UserSafe, ApiError>)
    ensures
        r is Ok <==> row is Some,
        r matches Ok(u) ==> row == Some(u),
        r matches Err(e) ==> e == ApiError::NotFound,
{
    match row {
        Some(user) => Ok(user),
        None => Err(ApiError::NotFound),
    }
}

/// Builds the record to insert for a registration: the password is hashed,
/// with a fresh salt, and only the hash enters the record, under the
/// guarantee that verification accepts exactly the registered password
/// against it. Fails only when hashing fails.
pub fn register_user(req: CreateUser) -> (r: Result<NewUserRecord, ApiError>)
    ensures
        r matches Ok(rec) ==> {
            &&& rec.username == req.username
            &&& rec.email == req.email
            &&& password_verifies(req.password@, rec.password_hash@)
            &&& bcrypt_hash_shape(rec.password_hash@)
        },
        r matches Err(e) ==> e == ApiError::HashingFailure,
{
    let password_hash = match User::hash_password(req.password.as_str()) {
        Ok(h) => h,
        Err(_) => {
            return Err(ApiError::HashingFailure);
        },
    };
    Ok(NewUserRecord { username: req.username, email: req.email, password_hash })
}

/// The login decision over the row fetched for the requested username: a
/// missing row and a wrong password yield the one merged `InvalidCredentials`
/// error, so the response reveals neither which field was wrong; exactly on
/// acceptance a token is issued for the user's id at time `now`, and the
/// response carries only the safe projection of the user, never the hash.
pub fn login_response(
    row: Option<User>,
    req: &LoginRequest,
    now: u64,
    config: &AuthConfig,
) -> (r: Result<LoginResponse, ApiError>)
    requires
        now + config.ttl_seconds <= u64::MAX,
    ensures
        r is Ok <==> credentials_accepted(row, req.password@),
        r matches Ok(resp) ==> {
            &&& row matches Some(u)
            &&& user_accepts_password(u, req.password@)
            &&& is_safe_view(resp.user, u)
            &&& resp.token@ == encoded_token(
                u.id as int,
                now as int,
                now + config.ttl_seconds,
                config.secret@,
            )
            &&& decoded_claims(resp.token@, config.secret@) == Some(
                (u.id as int, now as int, now + config.ttl_seconds),
            )
        },
        r matches Err(e) ==> e == ApiError::InvalidCredentials,
{
    let user = match row {
        Some(u) => u,
        None => {
            return Err(ApiError::InvalidCredentials);
        },
    };
    if !user.verify_password(req.password.as_str()) {
        return Err(ApiError::InvalidCredentials);
    }
    let token = generate_token(user.id, now, config).unwrap();
    Ok(LoginResponse { token, user: UserSafe::from(user) })
}

/// Merges a profile update into the stored row: a field left out of the
/// update keeps its stored value, and the id and creation time never change.
pub fn apply_user_update(current: UserSafe, upd: UpdateUser) -> (r: UserSafe)
    ensures
        r.id == current.id,
        r.created_at == current.created_at,
        r.username == match upd.username {
            Some(n) => n,
            None => current.username,
        },
        r.email == match upd.email {
            Some(e) => e,
            None => current.email,
        },
{
    UserSafe {
        id: current.id,
        created_at: current.created_at,
        username: match upd.username {
            Some(n) => n,
            None => current.username,
        },
        email: match upd.email {
            Some(e) => e,
            None => current.email,
        },
    }
}

/// The post list response: the rows as fetched, or `NotFound` when there are
/// none.
pub fn posts_list_response(posts: Vec<Post>) -> (r: Result<Vec<Post>, ApiError>)
    ensures
        r is Ok <==> posts@.len() > 0,
        r matches Ok(v) ==> v == posts,
        r matches Err(e) ==> e == ApiError::NotFound,
{
    if posts.len() == 0 {
        Err(ApiError::NotFound)
    } else {
        Ok(posts)
    }
}

/// The single-post response: the row as fetched, or `NotFound` when the
/// lookup came back empty.
pub fn post_found_response(row: Option<Post>) -> (r: Result<Post, ApiError>)
    ensures
        r is Ok <==> row is Some,
        r matches Ok(p) ==> row == Some(p),
        r matches Err(e) ==> e == ApiError::NotFound,
{
    match row {
        Some(post) => Ok(post),
        None => Err(ApiError::NotFound),
    }
}

/// Builds the record to insert for a new post. The owner id is taken from
/// the authenticated creator's identity; the client-supplied `user_id` field
/// of the request is ignored, so ownership cannot be spoofed at creation.
pub fn new_post_record(author: &AuthUser, req: CreatePost) -> (r: NewPostRecord)
    ensures
        r.user_id == author.user_id,
        r.title == req.title,
        r.body == req.body,
{
    NewPostRecord { title: req.title, body: req.body, user_id: author.user_id }
}

/// Merges a post update into the stored row: a field left out of the update
/// keeps its stored value, and the id, the owner and the creation time never
/// change — an update can alter content, never ownership.
pub fn apply_post_update(current: Post, upd: UpdatePost) -> (r: Post)
    ensures
        r.id == current.id,
        r.user_id == current.user_id,
        r.created_at == current.created_at,
        r.title == match upd.title {
            Some(t) => t,
            None => current.title,
        },
        r.body == match upd.body {
            Some(b) => b,
            None => current.body,
        },
{
    Post {
        id: current.id,
        user_id: current.user_id,
        created_at: current.created_at,
        title: match upd.title {
            Some(t) => t,
            None => current.title,
        },
        body: match upd.body {
            Some(b) => b,
            None => current.body,
        },
    }
}

/// The response to a deletion, given how many rows the store removed: a
/// success carrying `message` when something was deleted, `NotFound` when
/// nothing was.
pub fn deletion_response(rows_affected: u64, message: &str) -> (r: Result<
    SuccessResponse,
    ApiError,
>)
    ensures
        r is Ok <==> rows_affected > 0,
        r matches Ok(s) ==> s.message@ == message@,
        r matches Err(e) ==> e == ApiError::NotFound,
{
    if rows_affected == 0 {
        Err(ApiError::NotFound)
    } else {
        Ok(SuccessResponse { message: String::from_str(message) })
    }
}

} // verus!
