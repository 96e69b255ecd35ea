//! Session tokens.

pub mod auth;

pub use auth::{generate_auth_token, validate_token, Claims, TOKEN_TTL_SECONDS};
