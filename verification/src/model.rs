//! The records the service stores and the request bodies it reads.
//!
//! Identifiers are 128-bit numbers (the bits of a UUID) and instants are
//! counted in microseconds since the Unix epoch, in UTC.

use vstd::prelude::*;
use crate::token_type::{UserTokenStatus, UserTokenType};

verus! {

/// A registered user.
#[derive(Debug, Clone)]
pub struct User {
    pub id: u128,
    pub username: String,
    pub password_hash: String,
    pub created_at: i64,
}

/// A note, owned by one user and possibly shared with others.
#[derive(Debug, Clone)]
pub struct Note {
    pub id: u128,
    pub user_id: u128,
    pub title: String,
    pub content: String,
    pub created_at: i64,
}

/// A stored session or refresh token.
#[derive(Debug, Clone)]
pub struct UserToken {
    pub id: u128,
    pub created_at: i64,
    pub user_id: u128,
    pub token: String,
    pub token_type: UserTokenType,
    pub status: UserTokenStatus,
    pub expires_at: i64,
}

impl Default for UserToken {
    fn default() -> (t: Self)
        ensures
            t.id == 0,
            t.created_at == 0,
            t.user_id == 0,
            t.token@ == Seq::<char>::empty(),
            t.token_type == UserTokenType::SESSION,
            t.status == UserTokenStatus::ACTIVE,
            t.expires_at == 0,
    {
        UserToken {
            id: 0,
            created_at: 0,
            user_id: 0,
            token: String::new(),
            token_type: UserTokenType::default(),
            status: UserTokenStatus::default(),
            expires_at: 0,
        }
    }
}

/// What a client receives after logging in or refreshing: the session
/// token, its expiry, its owner and the refresh token.
#[derive(Debug, Clone)]
pub struct UserSession {
    pub token: String,
    pub refresh_token: String,
    pub user_id: u128,
    pub expires_at: i64,
}

impl UserSession {
    /// The session made of a stored session token and a stored refresh token.
    pub fn new(session_token: UserToken, refresh_token: UserToken) -> (s: Self)
        ensures
            s.user_id == session_token.user_id,
            s.token == session_token.token,
            s.refresh_token == refresh_token.token,
            s.expires_at == session_token.expires_at,
    {
        UserSession {
            user_id: session_token.user_id,
            token: session_token.token,
            refresh_token: refresh_token.token,
            expires_at: session_token.expires_at,
        }
    }
}

/// Body of a request that creates a note.
#[derive(Debug, Clone)]
pub struct CreateNoteRequest {
    pub title: String,
    pub content: String,
}

/// Body of a request that changes a note: each field that is present
/// replaces the note's.
#[derive(Debug, Clone)]
pub struct UpdateNoteRequest {
    pub title: Option<String>,
    pub content: Option<String>,
}

/// Body of a request that shares a note with another user.
#[derive(Debug, Clone)]
pub struct ShareNoteRequest {
    pub target_user_id: u128,
}

/// Query of a note search.
#[derive(Debug, Clone)]
pub struct SearchQuery {
    pub q: String,
}

/// Body of a login request.
#[derive(Debug, Clone)]
pub struct LoginRequest {
    pub username: String,
    pub password: String,
}

/// Body of a sign-up request.
#[derive(Debug, Clone)]
pub struct SignupRequest {
    pub username: String,
    pub password: String,
}

/// Body of a request that trades a refresh token for a new token pair.
#[derive(Debug, Clone)]
pub struct RefreshTokenRequest {
    pub refresh_token: String,
}

} // verus!
