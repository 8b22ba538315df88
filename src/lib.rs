//! Session and access control for a personal note repository served over HTTP:
//! signed session claims, a double-submit CSRF check, a per-user path sandbox,
//! directory listing decisions and the response envelope that rotates the
//! session token on every answer.

pub mod errors;
pub mod sandbox;
pub mod clock;
pub mod key;
pub mod claims;
pub mod tokens;
pub mod envelope;
pub mod filesystem;
pub mod state;
pub mod responders;
pub mod guards;
pub mod routes;
