use auth_core::errors::ApiError;
use auth_core::handlers::{
    apply_post_update, apply_user_update, deletion_response, login_response, new_post_record,
    post_found_response, posts_list_response, register_user, user_found_response,
    users_list_response,
};
use auth_core::models::{
    CreatePost, CreateUser, LoginRequest, Post, UpdatePost, UpdateUser, User, UserSafe,
};
use auth_core::policy::AuthUser;
use auth_core::token::{AuthConfig, decode_token};

const NOW: u64 = 1_700_000_000;

fn config() -> AuthConfig {
    AuthConfig::new(b"a process-wide signing secret".to_vec())
}

fn safe_user(id: i32, name: &str) -> UserSafe {
    UserSafe {
        id,
        username: String::from(name),
        email: format!("{}@example.com", name),
        created_at: NOW as i64,
    }
}

fn registered_user(id: i32, name: &str, password: &str) -> User {
    let rec = register_user(CreateUser {
        username: String::from(name),
        email: format!("{}@example.com", name),
        password: String::from(password),
    })
    .unwrap();
    User {
        id,
        username: rec.username,
        email: rec.email,
        created_at: NOW as i64,
        password_hash: Some(rec.password_hash),
    }
}

#[test]
fn empty_user_list_is_not_found() {
    assert_eq!(users_list_response(Vec::new()).unwrap_err(), ApiError::NotFound);
}

#[test]
fn nonempty_user_list_is_returned_unchanged() {
    let users = vec![safe_user(1, "alice"), safe_user(2, "bob")];
    let out = users_list_response(users).unwrap();
    assert_eq!(out.len(), 2);
    assert_eq!(out[0].username, "alice");
    assert_eq!(out[1].username, "bob");
}

#[test]
fn user_lookup_outcomes() {
    assert_eq!(user_found_response(None).unwrap_err(), ApiError::NotFound);
    let found = user_found_response(Some(safe_user(1, "alice"))).unwrap();
    assert_eq!(found.id, 1);
    assert_eq!(found.username, "alice");
}

#[test]
fn empty_post_list_is_not_found() {
    assert_eq!(posts_list_response(Vec::new()).unwrap_err(), ApiError::NotFound);
}

#[test]
fn post_lookup_outcomes() {
    assert_eq!(post_found_response(None).unwrap_err(), ApiError::NotFound);
    let post = Post {
        id: 5,
        title: String::from("t"),
        body: String::from("b"),
        user_id: 1,
        created_at: NOW as i64,
    };
    let found = post_found_response(Some(post)).unwrap();
    assert_eq!(found.id, 5);
}

#[test]
fn login_succeeds_and_token_names_the_user() {
    let alice = registered_user(1, "alice", "s3cret");
    let cfg = config();
    let req = LoginRequest { username: String::from("alice"), password: String::from("s3cret") };
    let resp = login_response(Some(alice), &req, NOW, &cfg).unwrap();
    assert_eq!(resp.user.id, 1);
    assert_eq!(resp.user.username, "alice");
    let claims = decode_token(&resp.token, &cfg, NOW).unwrap();
    assert_eq!(claims.sub, 1);
}

#[test]
fn login_with_wrong_password_is_invalid_credentials() {
    let alice = registered_user(1, "alice", "s3cret");
    let cfg = config();
    let req = LoginRequest { username: String::from("alice"), password: String::from("wrong") };
    let r = login_response(Some(alice), &req, NOW, &cfg);
    assert_eq!(r.unwrap_err(), ApiError::InvalidCredentials);
}

#[test]
fn login_with_unknown_username_is_invalid_credentials() {
    let cfg = config();
    let req = LoginRequest { username: String::from("nobody"), password: String::from("s3cret") };
    let r = login_response(None, &req, NOW, &cfg);
    assert_eq!(r.unwrap_err(), ApiError::InvalidCredentials);
}

#[test]
fn post_creation_takes_owner_from_identity_not_request() {
    let alice = AuthUser { user_id: 1 };
    let req = CreatePost {
        title: String::from("title"),
        body: String::from("body"),
        // A spoofed client-supplied owner: it must be ignored.
        user_id: 2,
    };
    let rec = new_post_record(&alice, req);
    assert_eq!(rec.user_id, 1);
    assert_eq!(rec.title, "title");
    assert_eq!(rec.body, "body");
}

#[test]
fn post_update_merges_and_keeps_ownership() {
    let post = Post {
        id: 5,
        title: String::from("old title"),
        body: String::from("old body"),
        user_id: 1,
        created_at: NOW as i64,
    };
    let upd = UpdatePost { title: Some(String::from("new title")), body: None };
    let updated = apply_post_update(post, upd);
    assert_eq!(updated.id, 5);
    assert_eq!(updated.user_id, 1);
    assert_eq!(updated.created_at, NOW as i64);
    assert_eq!(updated.title, "new title");
    assert_eq!(updated.body, "old body");
}

#[test]
fn user_update_merges_and_keeps_identity() {
    let current = safe_user(1, "alice");
    let upd = UpdateUser { username: None, email: Some(String::from("new@example.com")) };
    let updated = apply_user_update(current, upd);
    assert_eq!(updated.id, 1);
    assert_eq!(updated.username, "alice");
    assert_eq!(updated.email, "new@example.com");
    assert_eq!(updated.created_at, NOW as i64);
}

#[test]
fn deletion_outcomes() {
    assert_eq!(deletion_response(0, "post deleted").unwrap_err(), ApiError::NotFound);
    let ok = deletion_response(1, "post deleted").unwrap();
    assert_eq!(ok.message, "post deleted");
}

#[test]
fn ownership_end_to_end() {
    // Alice creates a post; the owner is her id whatever the request claims.
    let alice = AuthUser { user_id: 1 };
    let bob = AuthUser { user_id: 2 };
    let rec = new_post_record(
        &alice,
        CreatePost { title: String::from("t"), body: String::from("b"), user_id: 2 },
    );
    let stored = Post {
        id: 10,
        title: rec.title,
        body: rec.body,
        user_id: rec.user_id,
        created_at: NOW as i64,
    };
    // Bob, authenticated but not the owner, is refused before any side effect.
    assert_eq!(
        auth_core::policy::authorize_mutation(&bob, stored.user_id).unwrap_err(),
        ApiError::Forbidden
    );
    // Alice is allowed through, and the update cannot change ownership.
    assert!(auth_core::policy::authorize_mutation(&alice, stored.user_id).is_ok());
    let updated = apply_post_update(
        stored,
        UpdatePost { title: None, body: Some(String::from("edited")) },
    );
    assert_eq!(updated.user_id, 1);
    assert_eq!(updated.body, "edited");
}

#[test]
fn error_codes_and_messages() {
    assert_eq!(ApiError::Unauthenticated.status_code(), 401);
    assert_eq!(ApiError::Forbidden.status_code(), 403);
    assert_eq!(ApiError::NotFound.status_code(), 404);
    assert_eq!(ApiError::InvalidCredentials.status_code(), 401);
    assert_eq!(ApiError::InvalidToken.status_code(), 401);
    assert_eq!(ApiError::HashingFailure.status_code(), 500);
    assert_eq!(ApiError::SigningFailure.status_code(), 500);
    assert_eq!(ApiError::InvalidCredentials.message(), "invalid credentials");
    assert_eq!(ApiError::Forbidden.message(), "forbidden");
}
