//! Token codec: issues and decodes a signed, time-bounded identity claim set.
//!
//! Tokens are self-contained and stateless: validity is decided purely by the
//! signature and the expiry instant inside the claim set, with no server-side
//! session record. Signing and signature verification are jsonwebtoken's
//! (HS256 under a process-wide symmetric secret); `decoded_claims` names what
//! signature-checked decoding yields for a token under a secret, and the
//! expiry comparison itself is decided here, against a caller-supplied clock
//! reading.

use vstd::prelude::*;
use crate::claims::Claims;
use crate::errors::ApiError;

verus! {

/// Default lifetime of an issued token, in seconds.
pub const DEFAULT_TOKEN_TTL_SECONDS: u64 = 3600;

/// Process-wide immutable signing configuration: loaded once at startup and
/// passed by reference to every component that needs it.
pub struct AuthConfig {
    /// The symmetric signing secret, known only to the service process.
    pub secret: Vec<u8>,
    /// How long an issued token lives, in seconds.
    pub ttl_seconds: u64,
}

impl AuthConfig {
    /// Configuration with the default token lifetime.
    pub fn new(secret: Vec<u8>) -> (c: AuthConfig)
        ensures
            c.secret == secret,
            c.ttl_seconds == DEFAULT_TOKEN_TTL_SECONDS,
    {
        AuthConfig { secret, ttl_seconds: DEFAULT_TOKEN_TTL_SECONDS }
    }

    /// Configuration with a chosen token lifetime.
    pub fn with_ttl(secret: Vec<u8>, ttl_seconds: u64) -> (c: AuthConfig)
        ensures
            c.secret == secret,
            c.ttl_seconds == ttl_seconds,
    {
        AuthConfig { secret, ttl_seconds }
    }
}

/// What signature-checked decoding of `token` under `secret` yields: the
/// `(sub, iat, exp)` claim triple, or `None` when the token is malformed, the
/// signature does not verify under `secret`, the claim set lacks a numeric
/// `sub`, `iat` or `exp`, or it carries a claim the fixed validation refuses
/// (an audience, with none configured here). Deterministic in its arguments:
/// expiry is not consulted here.
pub uninterp spec fn decoded_claims(token: Seq<char>, secret: Seq<u8>) -> Option<(int, int, int)>;

/// The token that signing the claim triple `(sub, iat, exp)` under `secret`
/// produces. Issuance reads no other state, so the token is a function of
/// these arguments alone: the claim object is serialized with its keys in a
/// fixed order, the header is constant, and HMAC signing is deterministic.
pub uninterp spec fn encoded_token(sub: int, iat: int, exp: int, secret: Seq<u8>) -> Seq<char>;

/// The outside error type of jsonwebtoken operations; opaque to the core.
#[verifier::external_type_specification]
#[verifier::external_body]
pub struct ExJwtError(jsonwebtoken::errors::Error);

/// Relies on jsonwebtoken::encode with the default HS256 header: the result
/// is the signed encoding of exactly the claim object built from `sub`,
/// `iat` and `exp`, so decoding it under the same secret gives that triple
/// back, and two calls on the same arguments give the same token. It cannot
/// fail in this build: the HMAC signer accepts a secret of any length, the
/// claim object serializes infallibly, and HMAC signing never errors.
#[verifier::external_body]
fn jwt_encode_raw(sub: i32, iat: u64, exp: u64, secret: &[u8]) -> (r: Result<
    String,
    jsonwebtoken::errors::Error,
>)
    ensures
        r is Ok,
        r matches Ok(t) ==> {
            &&& t@ == encoded_token(sub as int, iat as int, exp as int, secret@)
            &&& decoded_claims(t@, secret@) == Some((sub as int, iat as int, exp as int))
        },
{
    let mut claims = serde_json::Map::new();
    claims.insert("sub".to_string(), serde_json::Value::from(sub));
    claims.insert("iat".to_string(), serde_json::Value::from(iat));
    claims.insert("exp".to_string(), serde_json::Value::from(exp));
    let key = jsonwebtoken::EncodingKey::from_secret(secret);
    jsonwebtoken::encode(&jsonwebtoken::Header::default(), &serde_json::Value::Object(claims), &key)
}

/// Relies on jsonwebtoken::decode over HS256: verifies the signature and
/// parses the claim set, deterministically in `(token, secret)`. Expiry
/// validation is disabled here; callers decide expiry themselves.
#[verifier::external_body]
fn jwt_decode_raw(token: &str, secret: &[u8]) -> (r: Result<
    (i64, u64, u64),
    jsonwebtoken::errors::Error,
>)
    ensures
        (match r {
            Ok((s, i, e)) => decoded_claims(token@, secret@) == Some(
                (s as int, i as int, e as int),
            ),
            Err(_) => decoded_claims(token@, secret@) is None,
        }),
{
    let mut validation = jsonwebtoken::Validation::new(jsonwebtoken::Algorithm::HS256);
    validation.validate_exp = false;
    validation.required_spec_claims = std::collections::HashSet::new();
    let key = jsonwebtoken::DecodingKey::from_secret(secret);
    let data = jsonwebtoken::decode::<serde_json::Value>(token, &key, &validation)?;
    let sub = data.claims.get("sub").and_then(serde_json::Value::as_i64);
    let iat = data.claims.get("iat").and_then(serde_json::Value::as_u64);
    let exp = data.claims.get("exp").and_then(serde_json::Value::as_u64);
    match (sub, iat, exp) {
        (Some(s), Some(i), Some(e)) => Ok((s, i, e)),
        _ => Err(jsonwebtoken::errors::ErrorKind::InvalidToken.into()),
    }
}

/// Whether a subject claim fits the service's user id type.
pub open spec fn subject_in_range(s: int) -> bool {
    i32::MIN <= s <= i32::MAX
}

/// The subject under which `token` authenticates at time `now`, or `None`
/// when it does not: the claim set must decode under `secret`, carry a
/// subject that fits a user id, and not have expired.
pub open spec fn accepted_subject(token: Seq<char>, secret: Seq<u8>, now: int) -> Option<int> {
    match decoded_claims(token, secret) {
        Some(c) => if subject_in_range(c.0) && c.2 > now {
            Some(c.0)
        } else {
            None
        },
        None => None,
    }
}

/// Whether `token` authenticates at all at time `now`.
pub open spec fn token_accepted(token: Seq<char>, secret: Seq<u8>, now: int) -> bool {
    accepted_subject(token, secret, now) is Some
}

/// Issues a token for `user_id` at time `now`: the claim set is
/// `{sub: user_id, iat: now, exp: now + ttl}`, serialized and signed under
/// the configured secret. Signing under a symmetric secret cannot fail, so a
/// token is always returned: a pure function of the subject, the clock
/// reading and the secret.
pub fn generate_token(user_id: i32, now: u64, config: &AuthConfig) -> (r: Result<
    String,
    ApiError,
>)
    requires
        now + config.ttl_seconds <= u64::MAX,
    ensures
        r is Ok,
        r matches Ok(t) ==> {
            &&& t@ == encoded_token(
                user_id as int,
                now as int,
                now + config.ttl_seconds,
                config.secret@,
            )
            &&& decoded_claims(t@, config.secret@) == Some(
                (user_id as int, now as int, now + config.ttl_seconds),
            )
        },
{
    let exp = now + config.ttl_seconds;
    Ok(jwt_encode_raw(user_id, now, exp, config.secret.as_slice()).unwrap())
}

/// Decodes and checks a token at time `now`: the signature must verify, the
/// claim set must be well-formed, and the expiry must lie strictly in the
/// future. Any failure is the one undetailed `InvalidToken` error.
pub fn decode_token(token: &str, config: &AuthConfig, now: u64) -> (r: Result<Claims, ApiError>)
    ensures
        r is Ok <==> token_accepted(token@, config.secret@, now as int),
        r matches Ok(c) ==> {
            &&& decoded_claims(token@, config.secret@) == Some(
                (c.sub as int, c.iat as int, c.exp as int),
            )
            &&& c.exp > now
            &&& accepted_subject(token@, config.secret@, now as int) == Some(c.sub as int)
        },
        r matches Err(e) ==> e == ApiError::InvalidToken,
{
    match jwt_decode_raw(token, config.secret.as_slice()) {
        Ok((s, i, e)) => {
            if e > now && s >= i32::MIN as i64 && s <= i32::MAX as i64 {
                Ok(Claims { sub: s as i32, exp: e, iat: i })
            } else {
                Err(ApiError::InvalidToken)
            }
        },
        Err(_) => Err(ApiError::InvalidToken),
    }
}

/// Decoding right after issuance yields the issued subject: a token whose
/// signed claim set carries subject `sub` and expiry `exp` is accepted at
/// every instant before `exp` — in particular at the issuance instant, since
/// a token is issued with an expiry strictly after it — and authenticates as
/// `sub`.
pub proof fn lemma_decode_after_issue(
    token: Seq<char>,
    secret: Seq<u8>,
    sub: i32,
    iat: int,
    exp: int,
    now: int,
)
    requires
        decoded_claims(token, secret) == Some((sub as int, iat, exp)),
        now < exp,
    ensures
        accepted_subject(token, secret, now) == Some(sub as int),
        token_accepted(token, secret, now),
{
}

/// An expired token is rejected even though its signature still verifies:
/// once `now` has reached the expiry in the claim set, acceptance fails.
pub proof fn lemma_expired_token_rejected(token: Seq<char>, secret: Seq<u8>, now: int)
    requires
        decoded_claims(token, secret) matches Some(c) && c.2 <= now,
    ensures
        !token_accepted(token, secret, now),
{
}

} // verus!
