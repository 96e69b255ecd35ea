//! Authentication core: credential checks, the two-factor challenge protocol,
//! session tokens and their revocation, with machine-checked contracts.

pub mod domain;
pub mod laws;
pub mod routes;
pub mod services;
pub mod utils;
