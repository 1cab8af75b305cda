//! The user identity record and the authentication request and response
//! shapes. The stored credential is an opaque hash string; the plaintext
//! password is never persisted.

use vstd::prelude::*;

verus! {

/// A stored user row.
#[derive(Debug, Clone, PartialEq)]
pub struct User {
    /// Primary key; absent until the store assigns one.
    pub id: Option<i64>,
    /// Unique username.
    pub username: String,
    /// Unique email.
    pub email: String,
    /// The encoded password credential, never the plaintext.
    pub password_hash: String,
    pub created_at: Option<i64>,
    pub updated_at: Option<i64>,
}

/// Body of a registration request.
#[derive(Debug, Clone, PartialEq)]
pub struct CreateUserRequest {
    pub username: String,
    pub email: String,
    pub password: String,
}

/// Body of a login request.
#[derive(Debug, Clone, PartialEq)]
pub struct LoginRequest {
    pub email: String,
    pub password: String,
}

/// The response shape of a user row; the credential never leaves the
/// service.
#[derive(Debug, Clone, PartialEq)]
pub struct UserResponse {
    pub id: i64,
    pub username: String,
    pub email: String,
    pub created_at: i64,
}

/// Whether a response is the faithful image of a row; a missing id maps
/// to 0 and a missing creation time to the epoch.
pub open spec fn user_response_matches(r: UserResponse, u: User) -> bool {
    &&& r.id == u.id.unwrap_or(0)
    &&& r.username@ == u.username@
    &&& r.email@ == u.email@
    &&& r.created_at == u.created_at.unwrap_or(0)
}

impl UserResponse {
    /// Response view of a row.
    pub fn from_user(u: &User) -> (r: UserResponse)
        ensures
            user_response_matches(r, *u),
    {
        UserResponse {
            id: u.id.unwrap_or(0),
            username: u.username.clone(),
            email: u.email.clone(),
            created_at: u.created_at.unwrap_or(0),
        }
    }
}

} // verus!
