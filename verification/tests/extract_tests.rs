use auth_core::errors::ApiError;
use auth_core::extract::authenticate;
use auth_core::policy::{AuthUser, authorize, authorize_mutation};
use auth_core::token::{AuthConfig, generate_token};

const NOW: u64 = 1_700_000_000;

fn config() -> AuthConfig {
    AuthConfig::new(b"a process-wide signing secret".to_vec())
}

#[test]
fn missing_header_is_unauthenticated() {
    let cfg = config();
    let r = authenticate(None, &cfg, NOW);
    assert_eq!(r.unwrap_err(), ApiError::Unauthenticated);
}

#[test]
fn non_bearer_scheme_is_unauthenticated() {
    let cfg = config();
    let token = generate_token(7, NOW, &cfg).unwrap();
    let header = format!("Token {}", token);
    let r = authenticate(Some(&header), &cfg, NOW);
    assert_eq!(r.unwrap_err(), ApiError::Unauthenticated);
}

#[test]
fn bearer_garbage_is_unauthenticated() {
    let cfg = config();
    let r = authenticate(Some("Bearer garbage"), &cfg, NOW);
    assert_eq!(r.unwrap_err(), ApiError::Unauthenticated);
}

#[test]
fn bare_token_without_prefix_is_unauthenticated() {
    let cfg = config();
    let token = generate_token(7, NOW, &cfg).unwrap();
    let r = authenticate(Some(&token), &cfg, NOW);
    assert_eq!(r.unwrap_err(), ApiError::Unauthenticated);
}

#[test]
fn valid_bearer_header_authenticates_the_subject() {
    let cfg = config();
    let token = generate_token(7, NOW, &cfg).unwrap();
    let header = format!("Bearer {}", token);
    let identity = authenticate(Some(&header), &cfg, NOW).unwrap();
    assert_eq!(identity.user_id, 7);
}

#[test]
fn expired_bearer_header_is_unauthenticated() {
    let cfg = AuthConfig::with_ttl(b"a process-wide signing secret".to_vec(), 10);
    let token = generate_token(7, NOW, &cfg).unwrap();
    let header = format!("Bearer {}", token);
    assert!(authenticate(Some(&header), &cfg, NOW + 5).is_ok());
    let r = authenticate(Some(&header), &cfg, NOW + 10);
    assert_eq!(r.unwrap_err(), ApiError::Unauthenticated);
}

#[test]
fn owner_is_authorized_and_others_are_not() {
    let identity = AuthUser { user_id: 7 };
    assert!(authorize(&identity, 7));
    assert!(!authorize(&identity, 8));
}

#[test]
fn mutation_gate_denies_non_owner_with_forbidden() {
    let identity = AuthUser { user_id: 7 };
    assert!(authorize_mutation(&identity, 7).is_ok());
    assert_eq!(authorize_mutation(&identity, 8).unwrap_err(), ApiError::Forbidden);
}
