//! Decision logic of a notes service with session and refresh tokens:
//! configuration defaults, the error-to-response mapping, token generation,
//! the database encoding of token kinds, password checks, the session
//! middleware, the authentication flows and the note access rules.

pub mod auth;
pub mod config;
pub mod error;
pub mod model;
pub mod note;
pub mod password;
pub mod session;
pub mod token;
pub mod token_type;
