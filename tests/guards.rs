use zk::claims::Claims;
use zk::errors::{AuthError, TokenError};
use zk::guards::{check_claims_csrf, csrf_guard, require_root, session_guard, CSRFClaims};
use zk::key::ApiKey;
use zk::tokens::issue_token;

const NOW: i64 = 1_700_000_000;

fn key() -> ApiKey {
    ApiKey::from_seed(&[5u8; 32])
}

fn token_for(sub: &str, nbf: i64, exp: i64) -> String {
    issue_token(&Claims::new("localhost", sub, "", nbf, nbf, exp), &key())
}

#[test]
fn session_without_cookie_is_missing() {
    assert!(matches!(session_guard(None, &key(), "localhost", NOW), Err(AuthError::Missing)));
}

#[test]
fn session_with_valid_cookie_passes() {
    let t = token_for("alice", NOW, NOW + 60);
    let c = session_guard(Some(&t), &key(), "localhost", NOW).unwrap();
    assert_eq!(c.get_sub(), "alice");
    let c = require_root(c, true).unwrap();
    assert_eq!(c.get_sub(), "alice");
}

#[test]
fn expired_session_is_invalid_token() {
    let t = token_for("alice", NOW - 7200, NOW - 3600);
    let r = session_guard(Some(&t), &key(), "localhost", NOW);
    assert!(matches!(r, Err(AuthError::JWTError(TokenError::Expired))));
    assert_eq!(r.err().unwrap().status(), 401);
}

#[test]
fn premature_session_is_invalid_token() {
    let t = token_for("alice", NOW + 3600, NOW + 7200);
    let r = session_guard(Some(&t), &key(), "localhost", NOW);
    assert!(matches!(r, Err(AuthError::JWTError(TokenError::NotYetValid))));
    assert_eq!(r.err().unwrap().status(), 401);
}

#[test]
fn session_with_unusable_subject_is_traversal() {
    let t = token_for("", NOW, NOW + 60);
    assert!(matches!(session_guard(Some(&t), &key(), "localhost", NOW), Err(AuthError::PathTraversalAttempt)));
    let t = token_for("/etc", NOW, NOW + 60);
    assert!(matches!(session_guard(Some(&t), &key(), "localhost", NOW), Err(AuthError::PathTraversalAttempt)));
}

#[test]
fn deleted_user_is_invalidated() {
    let t = token_for("ghost", NOW, NOW + 60);
    let c = session_guard(Some(&t), &key(), "localhost", NOW).unwrap();
    let r = require_root(c, false);
    assert!(matches!(r, Err(AuthError::UsernameInvalidated)));
    assert_eq!(r.err().unwrap().status(), 403);
}

#[test]
fn csrf_guard_outcomes() {
    assert!(matches!(csrf_guard(None, &key(), "localhost", NOW), Err(AuthError::Missing)));
    assert!(matches!(
        csrf_guard(Some("garbage"), &key(), "localhost", NOW),
        Err(AuthError::CSRFError(TokenError::SignatureInvalid))
    ));
    let t = token_for("", NOW, NOW + 60);
    let c = csrf_guard(Some(&t), &key(), "localhost", NOW).unwrap();
    assert_eq!(c.0.get_iss(), "localhost");
}

#[test]
fn check_prefers_session_error() {
    let ok = Ok(Claims::new_at(NOW));
    let bad: Result<Claims, AuthError> = Err(AuthError::JWTError(TokenError::Expired));
    let csrf_bad: Result<CSRFClaims, AuthError> = Err(AuthError::Missing);
    let csrf_ok: Result<CSRFClaims, AuthError> = Ok(CSRFClaims(Claims::new_at(NOW)));
    assert_eq!(check_claims_csrf(&bad, Some(&csrf_bad)), Some(AuthError::JWTError(TokenError::Expired)));
    assert_eq!(check_claims_csrf(&ok, Some(&csrf_bad)), Some(AuthError::Missing));
    assert_eq!(check_claims_csrf(&ok, Some(&csrf_ok)), None);
    assert_eq!(check_claims_csrf(&ok, None), None);
    assert_eq!(check_claims_csrf(&bad, None), Some(AuthError::JWTError(TokenError::Expired)));
}

#[test]
fn statuses_of_errors() {
    assert_eq!(AuthError::Missing.status(), 401);
    assert_eq!(AuthError::WrongUsernamePassword.status(), 401);
    assert_eq!(AuthError::CSRFError(TokenError::IssuerMismatch).status(), 401);
    assert_eq!(AuthError::PathTraversalAttempt.status(), 403);
    assert_eq!(AuthError::UsernameInvalidated.status(), 403);
}
