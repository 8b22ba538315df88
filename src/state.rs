//! Process configuration and the bodies that clients post.
use vstd::prelude::*;

verus! {

/// Settings read once at startup and shared read-only afterwards.
#[derive(Clone, Debug)]
pub struct ZKConfig {
    pub static_files_location: Option<String>,
    pub cors: bool,
    pub cors_origin: Option<String>,
    pub repo_files_location: String,
    pub hostname: String,
    pub admin_password: String,
}

/// A login request.
#[derive(Clone, Debug)]
pub struct AuthAttempt {
    pub username: String,
    pub password: String,
}

/// A request to create a document or a directory.
#[derive(Clone, Debug)]
pub struct CreateAttempt {
    pub ftype: crate::filesystem::FType,
    pub options: String,
}

} // verus!
