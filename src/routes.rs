//! The decisions of the API routes: reading a path, logging in, creating.
//! The caller performs what needs the file system and hands the results back.
use vstd::prelude::*;

use crate::claims::{Claims, ClaimsView, DAY_SECONDS};
use crate::clock::MAX_TIMESTAMP;
use crate::envelope::{build, is_envelope, AppState, DataType, ResponseBodyGeneric};
use crate::errors::AuthError;
use crate::filesystem::{Entry, FType};
use crate::guards::{check_claims_csrf, subject_is_unusable, subject_unusable, CSRFClaims};
use crate::key::ApiKey;
use crate::responders::{clears_site_data, ApiResponse};
use crate::sandbox::{escapes_sandbox, has_parent_segment, is_absolute, resolve, sandbox_root, spec_join, spec_root};
use crate::state::{AuthAttempt, ZKConfig};
use crate::tokens::{issue_token, jwt_claims_of, jwt_of};

verus! {

/// The JSON text of the message that answers a failed guard. A token refused
/// on either channel, cookie or header, gets the same message, so that the
/// answer does not tell which check failed.
pub open spec fn spec_error_payload(e: AuthError) -> Seq<char> {
    match e {
        AuthError::UsernameInvalidated => "{\"message\":\"Username invalidated.\"}"@,
        AuthError::Missing => "{\"message\":\"JWT missing. Please authorize.\"}"@,
        AuthError::WrongUsernamePassword => "{\"message\":\"Bad username/password.\"}"@,
        _ => "{\"message\":\"JWT invalidated. Please authorize.\"}"@,
    }
}

/// The JSON text of the message for a path that is neither a directory nor a document.
pub open spec fn invalid_path_payload() -> Seq<char> {
    "{\"message\":\"Invalid file path.\"}"@
}

/// The claims behind the token of an error response: issued by `host` at
/// `now` to nobody.
pub open spec fn anonymous(host: Seq<char>, now: int) -> ClaimsView {
    ClaimsView { iss: host, sub: Seq::empty(), aud: Seq::empty(), iat: now, nbf: now, exp: now + DAY_SECONDS }
}

/// `r` answers a request for `path` that failed with `e`: the status of `e`,
/// the header that clears the client's site data, and the message of `e`
/// under a token that names no subject.
pub open spec fn is_error_response(r: ApiResponse, path: Seq<char>, host: Seq<char>, key: Seq<u8>, e: AuthError, now: int) -> bool {
    &&& r.status == e.spec_status()
    &&& clears_site_data(r.headers@)
    &&& is_envelope(r.response, anonymous(host, now), key, path, spec_error_payload(e), DataType::ErrorMessage, now)
    &&& !r.response.appstate.authorized
}

/// `r` answers an authorized request for `path` with `payload` of type `dt`.
pub open spec fn is_authorized_response(r: ApiResponse, c: ClaimsView, key: Seq<u8>, path: Seq<char>, payload: Seq<char>, dt: DataType, now: int) -> bool {
    &&& is_envelope(r.response, c, key, path, payload, dt, now)
    &&& r.response.appstate.authorized
    &&& r.headers@.len() == 0
}

pub fn error_payload(e: AuthError) -> (r: String)
    ensures
        r@ == spec_error_payload(e),
{
    match e {
        AuthError::UsernameInvalidated => "{\"message\":\"Username invalidated.\"}".to_owned(),
        AuthError::Missing => "{\"message\":\"JWT missing. Please authorize.\"}".to_owned(),
        AuthError::WrongUsernamePassword => "{\"message\":\"Bad username/password.\"}".to_owned(),
        _ => "{\"message\":\"JWT invalidated. Please authorize.\"}".to_owned(),
    }
}

/// Answers a failed guard with its message: 403 for path and subject
/// conditions, 401 otherwise.
pub fn handle_jwt_error(path: &str, consts: &ZKConfig, key: &ApiKey, error: AuthError, now: i64) -> (r: ApiResponse)
    requires
        0 <= now <= MAX_TIMESTAMP,
    ensures
        is_error_response(r, path@, consts.hostname@, key@, error, now as int),
{
    let anon = Claims::new_at(now).set_iss(consts.hostname.as_str());
    let body = build(&anon, key, path, error_payload(error), DataType::ErrorMessage, now);
    if error.status() == 403 {
        ApiResponse::forbidden(body)
    } else {
        ApiResponse::unauthorized(body)
    }
}

/// What a read request needs next.
#[derive(Debug)]
pub enum ReadStep {
    /// Answer at once.
    Respond(ApiResponse),
    /// Ask the file system what `target` is, below the subject's root
    /// `basepath`, then answer the holder of `claims`.
    Open { claims: Claims, basepath: String, target: String },
}

/// A read of `path` by the outcome `claims` of the session guard: a failed
/// guard is answered, a path that would leave the subject's root is refused,
/// and otherwise the target to look at is resolved.
pub fn api(path: &str, claims: Result<Claims, AuthError>, consts: &ZKConfig, key: &ApiKey, now: i64) -> (r: ReadStep)
    requires
        0 <= now <= MAX_TIMESTAMP,
    ensures
        claims matches Err(e) ==> r matches ReadStep::Respond(resp)
            && is_error_response(resp, path@, consts.hostname@, key@, e, now as int),
        claims matches Ok(c) ==> (escapes_sandbox(c@.sub, path@) ==> (r matches ReadStep::Respond(resp)
            && is_error_response(resp, path@, consts.hostname@, key@, AuthError::PathTraversalAttempt, now as int))),
        claims matches Ok(c) ==> (!escapes_sandbox(c@.sub, path@) ==> (r matches ReadStep::Open { claims: held, basepath, target }
            && held@ == c@
            && basepath@ == spec_root(consts.repo_files_location@, c@.sub)
            && target@ == spec_join(basepath@, path@))),
{
    let c = match claims {
        Err(e) => return ReadStep::Respond(handle_jwt_error(path, consts, key, e, now)),
        Ok(c) => c,
    };
    let sub = c.get_sub();
    match resolve(sub.as_str(), path, consts.repo_files_location.as_str()) {
        Err(e) => ReadStep::Respond(handle_jwt_error(path, consts, key, e, now)),
        Ok(target) => ReadStep::Open {
            basepath: sandbox_root(consts.repo_files_location.as_str(), sub.as_str()),
            target,
            claims: c,
        },
    }
}

/// Answers with a directory listing (JSON text).
pub fn handle_directory(path: &str, listing: String, claims: &Claims, key: &ApiKey, now: i64) -> (r: ApiResponse)
    requires
        0 <= now <= MAX_TIMESTAMP,
    ensures
        r.status == 200,
        is_authorized_response(r, claims@, key@, path@, listing@, DataType::Directory, now as int),
{
    let body = build(claims, key, path, listing, DataType::Directory, now);
    ApiResponse::ok(body.set_appstate(AppState::default().set_authorized(true)))
}

/// Answers with a document (JSON text).
pub fn handle_markdown_file(path: &str, document: String, claims: &Claims, key: &ApiKey, now: i64) -> (r: ApiResponse)
    requires
        0 <= now <= MAX_TIMESTAMP,
    ensures
        r.status == 200,
        is_authorized_response(r, claims@, key@, path@, document@, DataType::MD, now as int),
{
    let body = build(claims, key, path, document, DataType::MD, now);
    ApiResponse::ok(body.set_appstate(AppState::default().set_authorized(true)))
}

/// Answers a path that is neither a directory nor a document.
pub fn handle_invalid_path(path: &str, claims: &Claims, key: &ApiKey, now: i64) -> (r: ApiResponse)
    requires
        0 <= now <= MAX_TIMESTAMP,
    ensures
        r.status == 404,
        is_authorized_response(r, claims@, key@, path@, invalid_path_payload(), DataType::ErrorMessage, now as int),
{
    let message = "{\"message\":\"Invalid file path.\"}".to_owned();
    let body = build(claims, key, path, message, DataType::ErrorMessage, now);
    ApiResponse::not_found(body.set_appstate(AppState::default().set_authorized(true)))
}

/// Answers a read once the file system has been asked: `entry` is what `open`
/// gave for the path, and `payload` the JSON text read for it, the listing of
/// a directory or the document; without an entry the path is invalid. A path
/// that would leave the subject's root is refused whatever the entry.
pub fn handle_dir_file(path: &str, entry: &Option<Entry>, payload: String, claims: &Claims, consts: &ZKConfig, key: &ApiKey, now: i64) -> (r: ApiResponse)
    requires
        0 <= now <= MAX_TIMESTAMP,
    ensures
        escapes_sandbox(claims@.sub, path@) ==> is_error_response(r, path@, consts.hostname@, key@, AuthError::PathTraversalAttempt, now as int),
        !escapes_sandbox(claims@.sub, path@) && entry is None ==> (r.status == 404
            && is_authorized_response(r, claims@, key@, path@, invalid_path_payload(), DataType::ErrorMessage, now as int)),
        !escapes_sandbox(claims@.sub, path@) && (entry matches Some(e) && e.ftype == FType::MDFile) ==> (r.status == 200
            && is_authorized_response(r, claims@, key@, path@, payload@, DataType::MD, now as int)),
        !escapes_sandbox(claims@.sub, path@) && (entry matches Some(e) && e.ftype == FType::Directory) ==> (r.status == 200
            && is_authorized_response(r, claims@, key@, path@, payload@, DataType::Directory, now as int)),
{
    let sub = claims.get_sub();
    if subject_is_unusable(sub.as_str()) || is_absolute(path) || has_parent_segment(path) {
        return handle_jwt_error(path, consts, key, AuthError::PathTraversalAttempt, now);
    }
    match entry {
        None => handle_invalid_path(path, claims, key, now),
        Some(e) => match e.ftype {
            FType::MDFile => handle_markdown_file(path, payload, claims, key, now),
            FType::Directory => handle_directory(path, payload, claims, key, now),
        },
    }
}

/// The root directory whose existence a login for `username` needs; none for
/// a user name that cannot name a directory.
pub fn login_root(consts: &ZKConfig, username: &str) -> (r: Option<String>)
    ensures
        subject_unusable(username@) ==> r is None,
        !subject_unusable(username@) ==> (r matches Some(p) && p@ == spec_root(consts.repo_files_location@, username@)),
{
    if subject_is_unusable(username) {
        None
    } else {
        Some(sandbox_root(consts.repo_files_location.as_str(), username))
    }
}

/// A login succeeds for a usable user name whose root exists, with the
/// configured password.
pub open spec fn login_accepted(message: AuthAttempt, consts: ZKConfig, root_exists: bool) -> bool {
    &&& !subject_unusable(message.username@)
    &&& root_exists
    &&& message.password@ == consts.admin_password@
}

/// The claims of a new session for `user` at `path`, issued by `host` at `now`.
pub open spec fn login_claims(host: Seq<char>, user: Seq<char>, path: Seq<char>, now: int) -> ClaimsView {
    ClaimsView { iss: host, sub: user, aud: path, iat: now, nbf: now, exp: now + DAY_SECONDS }
}

/// The login exchange at `path`. It needs a valid CSRF token; `root_exists`
/// says whether the directory of `login_root` exists. On success it gives
/// the session's claims and the token for its cookie; the caller then serves
/// `path` as a read with those claims.
pub fn auth(path: &str, message: &AuthAttempt, csrf: &Result<CSRFClaims, AuthError>, root_exists: bool, key: &ApiKey, consts: &ZKConfig, now: i64) -> (r: Result<(Claims, String), ApiResponse>)
    requires
        0 <= now <= MAX_TIMESTAMP,
    ensures
        csrf matches Err(e) ==> r matches Err(resp)
            && is_error_response(resp, path@, consts.hostname@, key@, *e, now as int),
        csrf is Ok ==> (r is Ok <==> login_accepted(*message, *consts, root_exists)),
        csrf is Ok && !login_accepted(*message, *consts, root_exists) ==> (r matches Err(resp)
            && is_error_response(resp, path@, consts.hostname@, key@, AuthError::WrongUsernamePassword, now as int)),
        r matches Ok((c, t)) ==> c@ == login_claims(consts.hostname@, message.username@, path@, now as int)
            && t@ == jwt_of(c@, key@) && jwt_claims_of(t@, key@) == Some(c@),
{
    if let Err(e) = csrf {
        return Err(handle_jwt_error(path, consts, key, *e, now));
    }
    if subject_is_unusable(message.username.as_str()) || !root_exists || message.password != consts.admin_password {
        return Err(handle_jwt_error(path, consts, key, AuthError::WrongUsernamePassword, now));
    }
    let claims = Claims::new_at(now).set_iss(consts.hostname.as_str()).set_sub(message.username.as_str()).set_aud(path);
    let token = issue_token(&claims, key);
    Ok((claims, token))
}

/// A request to create content: both the session and the CSRF token must
/// pass. Creation itself is not offered yet, so success is an empty answer.
pub fn create(path: &str, csrf: &Result<CSRFClaims, AuthError>, claims: &Result<Claims, AuthError>, key: &ApiKey, consts: &ZKConfig, now: i64) -> (r: ApiResponse)
    requires
        0 <= now <= MAX_TIMESTAMP,
    ensures
        check_claims_csrf_spec(claims, csrf) matches Some(e) ==> is_error_response(r, path@, consts.hostname@, key@, e, now as int),
        check_claims_csrf_spec(claims, csrf) is None ==> r.status == 200 && r.response.datatype == DataType::Empty
            && r.response.token is None,
{
    match check_claims_csrf(claims, Some(csrf)) {
        Some(e) => handle_jwt_error(path, consts, key, e, now),
        None => ApiResponse::ok(ResponseBodyGeneric::default()),
    }
}

/// The first failure of a session outcome and a CSRF outcome.
pub open spec fn check_claims_csrf_spec(claims: &Result<Claims, AuthError>, csrf: &Result<CSRFClaims, AuthError>) -> Option<AuthError> {
    match claims {
        Err(e) => Some(*e),
        Ok(_) => match csrf {
            Err(e) => Some(*e),
            Ok(_) => None,
        },
    }
}

} // verus!
