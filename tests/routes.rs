use zk::claims::Claims;
use zk::envelope::{hash_text, DataType};
use zk::errors::{AuthError, TokenError};
use zk::filesystem::{open, PathKind};
use zk::guards::{csrf_guard, session_guard, CSRFClaims};
use zk::key::ApiKey;
use zk::routes::{api, auth, create, handle_dir_file, handle_directory, handle_invalid_path, handle_jwt_error, handle_markdown_file, login_root, ReadStep};
use zk::state::{AuthAttempt, ZKConfig};
use zk::tokens::{issue_token, validate_token};

const NOW: i64 = 1_700_000_000;

fn config() -> ZKConfig {
    ZKConfig {
        static_files_location: None,
        cors: false,
        cors_origin: None,
        repo_files_location: "/srv/notes/".to_string(),
        hostname: "localhost".to_string(),
        admin_password: "hunter2".to_string(),
    }
}

fn key() -> ApiKey {
    ApiKey::from_seed(&[9u8; 32])
}

fn session(sub: &str) -> Claims {
    Claims::new("localhost", sub, "", NOW, NOW, NOW + 3600)
}

fn anonymous_csrf() -> Result<CSRFClaims, AuthError> {
    let t = issue_token(&Claims::new_at(NOW).set_iss("localhost"), &key());
    csrf_guard(Some(&t), &key(), "localhost", NOW)
}

#[test]
fn login_with_correct_password_opens_session() {
    let consts = config();
    let message = AuthAttempt { username: "alice".to_string(), password: "hunter2".to_string() };
    assert_eq!(login_root(&consts, "alice").unwrap(), "/srv/notes/alice");
    let (claims, cookie) = auth("notes", &message, &anonymous_csrf(), true, &key(), &consts, NOW).unwrap();
    assert_eq!(claims.get_aud(), "notes");
    assert_eq!(claims.get_sub(), "alice");
    let from_cookie = session_guard(Some(&cookie), &key(), "localhost", NOW).unwrap();
    assert_eq!(from_cookie.get_aud(), "notes");
    let step = api("notes", Ok(from_cookie), &consts, &key(), NOW);
    let (held, basepath, target) = match step {
        ReadStep::Open { claims, basepath, target } => (claims, basepath, target),
        ReadStep::Respond(_) => panic!("read refused"),
    };
    assert_eq!(held.get_sub(), "alice");
    assert_eq!(basepath, "/srv/notes/alice");
    assert_eq!(target, "/srv/notes/alice/notes");
    let resp = handle_directory("notes", "{\"mds\":[]}".to_string(), &claims, &key(), NOW);
    assert_eq!(resp.status, 200);
    assert_eq!(resp.response.datatype, DataType::Directory);
    assert!(resp.response.history);
    assert!(resp.response.appstate.authorized);
    let rotated = validate_token(resp.response.token.as_ref().unwrap(), &key(), "localhost", NOW).unwrap();
    assert_eq!(rotated.get_aud(), "notes");
}

#[test]
fn login_with_wrong_password_is_refused() {
    let consts = config();
    let message = AuthAttempt { username: "alice".to_string(), password: "guess".to_string() };
    let resp = auth("", &message, &anonymous_csrf(), true, &key(), &consts, NOW).err().unwrap();
    assert_eq!(resp.status, 401);
    assert_eq!(resp.response.inner, "{\"message\":\"Bad username/password.\"}");
}

#[test]
fn login_without_root_is_refused() {
    let consts = config();
    let message = AuthAttempt { username: "nobody".to_string(), password: "hunter2".to_string() };
    assert!(auth("", &message, &anonymous_csrf(), false, &key(), &consts, NOW).is_err());
    let message = AuthAttempt { username: "".to_string(), password: "hunter2".to_string() };
    assert!(login_root(&consts, "").is_none());
    assert!(auth("", &message, &anonymous_csrf(), true, &key(), &consts, NOW).is_err());
}

#[test]
fn login_without_csrf_is_refused() {
    let consts = config();
    let message = AuthAttempt { username: "alice".to_string(), password: "hunter2".to_string() };
    let resp = auth("", &message, &Err(AuthError::Missing), true, &key(), &consts, NOW).err().unwrap();
    assert_eq!(resp.status, 401);
    assert_eq!(resp.response.inner, "{\"message\":\"JWT missing. Please authorize.\"}");
}

#[test]
fn traversal_with_valid_session_is_forbidden() {
    let consts = config();
    let step = api("../../etc", Ok(session("alice")), &consts, &key(), NOW);
    let resp = match step {
        ReadStep::Respond(r) => r,
        ReadStep::Open { .. } => panic!("traversal reached the file system"),
    };
    assert_eq!(resp.status, 403);
    assert_eq!(resp.response.datatype, DataType::ErrorMessage);
    assert_eq!(resp.response.inner, "{\"message\":\"JWT invalidated. Please authorize.\"}");
    assert_eq!(resp.headers, vec![("Clear-Site-Data".to_string(), "\"*\"".to_string())]);
    let step = api("/etc", Ok(session("alice")), &consts, &key(), NOW);
    assert!(matches!(step, ReadStep::Respond(r) if r.status == 403));
}

#[test]
fn mutation_without_csrf_header_is_unauthorized() {
    let consts = config();
    let csrf = csrf_guard(None, &key(), "localhost", NOW);
    let resp = create("notes", &csrf, &Ok(session("alice")), &key(), &consts, NOW);
    assert_eq!(resp.status, 401);
    assert_eq!(resp.response.inner, "{\"message\":\"JWT missing. Please authorize.\"}");
    assert!(!resp.response.appstate.authorized);
}

#[test]
fn mutation_with_both_tokens_passes() {
    let consts = config();
    let resp = create("notes", &anonymous_csrf(), &Ok(session("alice")), &key(), &consts, NOW);
    assert_eq!(resp.status, 200);
    assert_eq!(resp.response.datatype, DataType::Empty);
}

#[test]
fn deleted_user_request_is_forbidden() {
    let consts = config();
    let resp = handle_jwt_error("notes", &consts, &key(), AuthError::UsernameInvalidated, NOW);
    assert_eq!(resp.status, 403);
    assert_eq!(resp.response.inner, "{\"message\":\"Username invalidated.\"}");
    assert_eq!(resp.response.hash, hash_text("{\"message\":\"Username invalidated.\"}"));
}

#[test]
fn error_response_carries_anonymous_token() {
    let consts = config();
    let resp = handle_jwt_error("x/y", &consts, &key(), AuthError::CSRFError(zk::errors::TokenError::Expired), NOW);
    assert_eq!(resp.status, 401);
    assert_eq!(resp.response.inner, "{\"message\":\"JWT invalidated. Please authorize.\"}");
    let c = validate_token(resp.response.token.as_ref().unwrap(), &key(), "localhost", NOW).unwrap();
    assert_eq!(c.get_sub(), "");
    assert_eq!(c.get_aud(), "x/y");
    assert_eq!(resp.response.apiurl, "x/y");
}

#[test]
fn missing_session_read_is_unauthorized() {
    let consts = config();
    let step = api("notes", Err(AuthError::Missing), &consts, &key(), NOW);
    assert!(matches!(step, ReadStep::Respond(r) if r.status == 401));
}

#[test]
fn document_and_invalid_path_answers() {
    let claims = session("alice");
    let resp = handle_markdown_file("a.md", "{\"name\":\"a.md\"}".to_string(), &claims, &key(), NOW);
    assert_eq!(resp.status, 200);
    assert_eq!(resp.response.datatype, DataType::MD);
    assert_eq!(resp.response.url, "a.md");
    let resp = handle_invalid_path("nope", &claims, &key(), NOW);
    assert_eq!(resp.status, 404);
    assert_eq!(resp.response.inner, "{\"message\":\"Invalid file path.\"}");
    assert!(!resp.response.history);
    assert!(resp.headers.is_empty());
}

#[test]
fn token_failures_on_both_channels_read_alike() {
    let consts = config();
    let kinds = [TokenError::SignatureInvalid, TokenError::Expired, TokenError::NotYetValid, TokenError::IssuerMismatch];
    for a in kinds {
        for b in kinds {
            let x = handle_jwt_error("p", &consts, &key(), AuthError::JWTError(a), NOW);
            let y = handle_jwt_error("p", &consts, &key(), AuthError::CSRFError(b), NOW);
            assert_eq!(x.status, y.status);
            assert_eq!(x.response.inner, y.response.inner);
        }
    }
}

#[test]
fn dir_file_dispatch() {
    let claims = session("alice");
    let doc = open("a.md", "/srv/notes/alice", PathKind::File);
    let resp = handle_dir_file("a.md", &doc, "{\"x\":1}".to_string(), &claims, &config(), &key(), NOW);
    assert_eq!(resp.status, 200);
    assert_eq!(resp.response.datatype, DataType::MD);
    assert_eq!(resp.response.inner, "{\"x\":1}");
    let dir = open("", "/srv/notes/alice", PathKind::Directory);
    let resp = handle_dir_file("", &dir, "{}".to_string(), &claims, &config(), &key(), NOW);
    assert_eq!(resp.response.datatype, DataType::Directory);
    let resp = handle_dir_file("zz", &None, String::new(), &claims, &config(), &key(), NOW);
    assert_eq!(resp.status, 404);
    assert_eq!(resp.response.inner, "{\"message\":\"Invalid file path.\"}");
}

#[test]
fn dir_file_refuses_paths_leaving_root() {
    let claims = session("alice");
    let entry = open("", "/srv/notes/alice", PathKind::Directory);
    for path in ["/etc/passwd", "../../etc", "a/../b"] {
        let resp = handle_dir_file(path, &entry, "{\"secret\":1}".to_string(), &claims, &config(), &key(), NOW);
        assert_eq!(resp.status, 403);
        assert_eq!(resp.response.datatype, DataType::ErrorMessage);
        assert_eq!(resp.response.inner, "{\"message\":\"JWT invalidated. Please authorize.\"}");
        assert_eq!(resp.headers, vec![("Clear-Site-Data".to_string(), "\"*\"".to_string())]);
    }
    let resp = handle_dir_file("x", &None, String::new(), &session(""), &config(), &key(), NOW);
    assert_eq!(resp.status, 403);
}
