//! Error taxonomy of the authentication and authorization core.

use vstd::prelude::*;

verus! {

/// Every failure the core can report.
///
/// - `Unauthenticated`: missing, malformed, expired or unverifiable bearer
///   credentials; surfaced without detail so a caller cannot learn why.
/// - `Forbidden`: authenticated, but not the owner of the targeted resource.
/// - `NotFound`: the requested resource does not exist.
/// - `InvalidCredentials`: login with a wrong username or a wrong password,
///   merged into one error so neither field is revealed.
/// - `InvalidToken`: a token that failed decoding or expired.
/// - `HashingFailure` / `SigningFailure`: an internal cryptographic operation
///   failed; never carries internal detail.
#[derive(Clone, Copy, Debug, PartialEq, Eq, Structural)]
pub enum ApiError {
    Unauthenticated,
    Forbidden,
    NotFound,
    InvalidCredentials,
    InvalidToken,
    HashingFailure,
    SigningFailure,
}

impl ApiError {
    /// The HTTP status code under which this error is surfaced.
    pub fn status_code(&self) -> (code: u16)
        ensures
            code == match *self {
                ApiError::Unauthenticated => 401u16,
                ApiError::Forbidden => 403u16,
                ApiError::NotFound => 404u16,
                ApiError::InvalidCredentials => 401u16,
                ApiError::InvalidToken => 401u16,
                ApiError::HashingFailure => 500u16,
                ApiError::SigningFailure => 500u16,
            },
    {
        match *self {
            ApiError::Unauthenticated => 401,
            ApiError::Forbidden => 403,
            ApiError::NotFound => 404,
            ApiError::InvalidCredentials => 401,
            ApiError::InvalidToken => 401,
            ApiError::HashingFailure => 500,
            ApiError::SigningFailure => 500,
        }
    }

    /// A short description of the error, safe to put in a response: it names
    /// the failure class and nothing else.
    pub fn message(&self) -> (msg: &'static str)
        ensures
            msg@ == match *self {
                ApiError::Unauthenticated => "unauthenticated"@,
                ApiError::Forbidden => "forbidden"@,
                ApiError::NotFound => "not found"@,
                ApiError::InvalidCredentials => "invalid credentials"@,
                ApiError::InvalidToken => "invalid token"@,
                ApiError::HashingFailure => "failed to hash password"@,
                ApiError::SigningFailure => "failed to generate token"@,
            },
    {
        match *self {
            ApiError::Unauthenticated => "unauthenticated",
            ApiError::Forbidden => "forbidden",
            ApiError::NotFound => "not found",
            ApiError::InvalidCredentials => "invalid credentials",
            ApiError::InvalidToken => "invalid token",
            ApiError::HashingFailure => "failed to hash password",
            ApiError::SigningFailure => "failed to generate token",
        }
    }
}

} // verus!
