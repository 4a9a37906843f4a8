//! Authentication and authorization core for a multi-user content service:
//! password credential hashing and verification, stateless signed-token
//! issuance and decoding, bearer-header extraction, and the ownership policy
//! applied before every mutation of an owned resource.

pub mod claims;
pub mod errors;
pub mod extract;
pub mod handlers;
pub mod models;
pub mod password;
pub mod policy;
pub mod token;
