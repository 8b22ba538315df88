//! The session guard (cookie) and the CSRF guard (header), and how their
//! outcomes combine.
use vstd::prelude::*;

use crate::claims::{Claims, ClaimsView};
use crate::errors::AuthError;
use crate::key::ApiKey;
use crate::sandbox::{is_absolute, spec_is_absolute};
use crate::tokens::{claims_result_view, jwt_claims_of, spec_validate, validate_token, LEEWAY};

verus! {

/// Claims that arrived in the CSRF header.
#[derive(Debug)]
pub struct CSRFClaims(pub Claims);

pub open spec fn str_option_view(o: Option<&str>) -> Option<Seq<char>> {
    match o {
        Some(s) => Some(s@),
        None => None,
    }
}

/// A subject that cannot name a directory of its own.
pub open spec fn subject_unusable(sub: Seq<char>) -> bool {
    sub.len() == 0 || spec_is_absolute(sub)
}

/// The session guard up to the file system: no cookie, a token that does not
/// validate, or a subject that cannot name a root.
pub open spec fn spec_session_guard(cookie: Option<Seq<char>>, key: Seq<u8>, host: Seq<char>, now: int) -> Result<ClaimsView, AuthError> {
    match cookie {
        None => Err(AuthError::Missing),
        Some(t) => match spec_validate(t, key, host, now) {
            Err(e) => Err(AuthError::JWTError(e)),
            Ok(c) => if subject_unusable(c.sub) {
                Err(AuthError::PathTraversalAttempt)
            } else {
                Ok(c)
            },
        },
    }
}

pub open spec fn spec_csrf_guard(header: Option<Seq<char>>, key: Seq<u8>, host: Seq<char>, now: int) -> Result<ClaimsView, AuthError> {
    match header {
        None => Err(AuthError::Missing),
        Some(t) => match spec_validate(t, key, host, now) {
            Err(e) => Err(AuthError::CSRFError(e)),
            Ok(c) => Ok(c),
        },
    }
}

pub open spec fn csrf_result_view(r: Result<CSRFClaims, AuthError>) -> Result<ClaimsView, AuthError> {
    match r {
        Ok(c) => Ok(c.0@),
        Err(e) => Err(e),
    }
}

pub fn subject_is_unusable(sub: &str) -> (r: bool)
    ensures
        r == subject_unusable(sub@),
{
    sub.unicode_len() == 0 || is_absolute(sub)
}

/// Reads the session cookie's token. The caller then confirms that the
/// subject's root still exists (see `require_root`).
pub fn session_guard(cookie: Option<&str>, key: &ApiKey, hostname: &str, now: i64) -> (r: Result<Claims, AuthError>)
    ensures
        claims_result_view(r) == spec_session_guard(str_option_view(cookie), key@, hostname@, now as int),
{
    let token = match cookie {
        None => return Err(AuthError::Missing),
        Some(t) => t,
    };
    match validate_token(token, key, hostname, now) {
        Err(e) => Err(AuthError::JWTError(e)),
        Ok(c) => {
            let sub = c.get_sub();
            if subject_is_unusable(sub.as_str()) {
                Err(AuthError::PathTraversalAttempt)
            } else {
                Ok(c)
            }
        },
    }
}

/// The last step of the session guard: a subject whose root directory is gone
/// has been removed or renamed, and its sessions end with it.
pub fn require_root(claims: Claims, root_exists: bool) -> (r: Result<Claims, AuthError>)
    ensures
        root_exists ==> claims_result_view(r) == Ok::<ClaimsView, AuthError>(claims@),
        !root_exists ==> r == Err::<Claims, AuthError>(AuthError::UsernameInvalidated),
{
    if root_exists {
        Ok(claims)
    } else {
        Err(AuthError::UsernameInvalidated)
    }
}

/// Reads the CSRF header's token. Unlike the session guard it looks at no
/// directory: it only shows that the page could read a token signed with the key.
pub fn csrf_guard(header: Option<&str>, key: &ApiKey, hostname: &str, now: i64) -> (r: Result<CSRFClaims, AuthError>)
    ensures
        csrf_result_view(r) == spec_csrf_guard(str_option_view(header), key@, hostname@, now as int),
{
    let token = match header {
        None => return Err(AuthError::Missing),
        Some(t) => t,
    };
    match validate_token(token, key, hostname, now) {
        Err(e) => Err(AuthError::CSRFError(e)),
        Ok(c) => Ok(CSRFClaims(c)),
    }
}

/// The first failure of the two guards, the session's first; the CSRF side is
/// absent on routes that do not need it.
pub fn check_claims_csrf(claims: &Result<Claims, AuthError>, csrf: Option<&Result<CSRFClaims, AuthError>>) -> (r: Option<AuthError>)
    ensures
        claims matches Err(e) ==> r == Some(*e),
        claims is Ok ==> (csrf matches Some(Err(e)) ==> r == Some(*e)),
        claims is Ok ==> (!(csrf matches Some(Err(_))) ==> r is None),
{
    match claims {
        Err(e) => Some(*e),
        Ok(_) => match csrf {
            Some(Err(e)) => Some(*e),
            _ => None,
        },
    }
}

/// A session token past its expiry, or before its start, by more than the
/// leeway is refused as an invalid token, which asks the client to log in again.
pub proof fn lemma_stale_session_refused(token: Seq<char>, key: Seq<u8>, host: Seq<char>, now: int)
    requires
        jwt_claims_of(token, key) matches Some(c) && (c.exp + LEEWAY < now || now < c.nbf - LEEWAY),
    ensures
        spec_session_guard(Some(token), key, host, now) matches Err(e) && e is JWTError && e.spec_status() == 401,
{
}

} // verus!
