//! The response envelope: payload, its content hash, and a freshly minted
//! session token bound to the path being served.
use vstd::prelude::*;
use vstd::utf8::encode_utf8;

use crypto_hashes::sha2::{Digest, Sha256};

use crate::claims::{Claims, ClaimsView, HOUR_SECONDS};
use crate::clock::{local_time_rfc2822, MAX_TIMESTAMP};
use crate::key::ApiKey;
use crate::tokens::{issue_token, jwt_claims_of, jwt_of};

verus! {

/// Hours that a token minted for a response stays valid.
pub const RESPONSE_TOKEN_HOURS: i64 = 12;

/// The SHA-256 digest of `b`.
pub uninterp spec fn sha256_of(b: Seq<u8>) -> Seq<u8>;

/// Relies on `sha2::Sha256::digest` (re-exported by crypto_hashes): the
/// 32-byte SHA-256 digest of its input.
#[verifier::external_body]
fn sha256(b: &[u8]) -> (r: Vec<u8>)
    ensures
        r@ == sha256_of(b@),
        r@.len() == 32,
{
    Sha256::digest(b).to_vec()
}

pub open spec fn hex_chars() -> Seq<char> {
    seq!['0', '1', '2', '3', '4', '5', '6', '7', '8', '9', 'a', 'b', 'c', 'd', 'e', 'f']
}

/// Lower-case hexadecimal, two digits per byte, high half first.
pub open spec fn hex_lower(b: Seq<u8>) -> Seq<char>
    decreases b.len(),
{
    if b.len() == 0 {
        Seq::empty()
    } else {
        hex_lower(b.drop_last()) + seq![hex_chars()[b.last() as int / 16], hex_chars()[b.last() as int % 16]]
    }
}

pub fn to_hex(b: &[u8]) -> (r: String)
    ensures
        r@ == hex_lower(b@),
{
    let digits = "0123456789abcdef";
    proof {
        reveal_strlit("0123456789abcdef");
        assert(digits@ =~= hex_chars());
    }
    let mut s = String::new();
    let n = b.len();
    let mut i: usize = 0;
    while i < n
        invariant
            n == b@.len(),
            i <= n,
            digits@ == hex_chars(),
            s@ == hex_lower(b@.subrange(0, i as int)),
        decreases n - i,
    {
        let x = b[i];
        let hi = (x / 16) as usize;
        let lo = (x % 16) as usize;
        s.append(digits.substring_char(hi, hi + 1));
        s.append(digits.substring_char(lo, lo + 1));
        proof {
            let p = b@.subrange(0, i + 1);
            assert(p.drop_last() =~= b@.subrange(0, i as int));
            assert(p.last() == x);
        }
        i = i + 1;
        assert(s@ =~= hex_lower(b@.subrange(0, i as int)));
    }
    assert(b@.subrange(0, n as int) =~= b@);
    s
}

/// The hash of a payload: the hex SHA-256 digest of its UTF-8 text.
pub open spec fn content_hash(text: Seq<char>) -> Seq<char> {
    hex_lower(sha256_of(encode_utf8(text)))
}

pub fn hash_text(text: &str) -> (r: String)
    ensures
        r@ == content_hash(text@),
{
    let d = sha256(text.as_bytes());
    to_hex(d.as_slice())
}

/// The type tag of a payload.
#[derive(Clone, Copy, Debug, PartialEq, Eq, Structural)]
pub enum DataType {
    Empty,
    ErrorMessage,
    MD,
    Directory,
}

impl DataType {
    /// Directory listings and documents are places the client can go back to.
    pub open spec fn spec_navigable(self) -> bool {
        self == DataType::MD || self == DataType::Directory
    }

    pub fn is_navigable(self) -> (r: bool)
        ensures
            r == self.spec_navigable(),
    {
        match self {
            DataType::MD | DataType::Directory => true,
            _ => false,
        }
    }
}

/// The last commit of the backing repository, as text.
#[derive(Clone, Debug)]
pub struct CommitData {
    pub id: String,
    pub time: String,
    pub author: String,
    pub message: String,
}

/// Whether the client is logged in, the server's local time, and the last commit.
#[derive(Clone, Debug)]
pub struct AppState {
    pub authorized: bool,
    pub time: String,
    pub commit: Option<CommitData>,
}

impl Default for AppState {
    /// Not authorized, no commit, stamped with the local time now.
    fn default() -> (r: AppState)
        ensures
            !r.authorized,
            r.commit is None,
    {
        AppState { authorized: false, commit: None, time: local_time_rfc2822() }
    }
}

impl AppState {
    pub fn set_authorized(self, authorized: bool) -> (r: AppState)
        ensures
            r.authorized == authorized,
            r.time == self.time,
            r.commit == self.commit,
    {
        AppState { authorized, ..self }
    }

    pub fn set_commit(self, commit: Option<CommitData>) -> (r: AppState)
        ensures
            r.authorized == self.authorized,
            r.time == self.time,
            r.commit == commit,
    {
        AppState { commit, ..self }
    }
}

/// The JSON text of the empty payload.
pub open spec fn null_json() -> Seq<char> {
    seq!['n', 'u', 'l', 'l']
}

/// The claims of the token minted for a response to `path` at `now`: those of
/// the request, bound to `path`, with a fresh window of
/// `RESPONSE_TOKEN_HOURS` hours.
pub open spec fn rotated(c: ClaimsView, path: Seq<char>, now: int) -> ClaimsView {
    ClaimsView { aud: path, iat: now, nbf: now, exp: now + RESPONSE_TOKEN_HOURS * HOUR_SECONDS, ..c }
}

/// The body of every API response. `inner` is the payload as JSON text and
/// `hash` the hex SHA-256 digest of that text.
#[derive(Clone, Debug)]
pub struct ResponseBodyGeneric {
    pub token: Option<String>,
    pub hash: String,
    pub url: String,
    pub history: bool,
    pub apiurl: String,
    pub inner: String,
    pub datatype: DataType,
    pub appstate: AppState,
}

impl Default for ResponseBodyGeneric {
    /// The empty payload `null`, no token, no URLs, not added to history.
    fn default() -> (r: ResponseBodyGeneric)
        ensures
            r.datatype == DataType::Empty,
            r.inner@ == null_json(),
            r.hash@ == content_hash(null_json()),
            r.url@.len() == 0,
            r.apiurl@.len() == 0,
            !r.history,
            r.token is None,
            !r.appstate.authorized,
            r.appstate.commit is None,
    {
        let null = "null";
        proof {
            reveal_strlit("null");
            assert(null@ =~= null_json());
        }
        ResponseBodyGeneric {
            datatype: DataType::Empty,
            hash: hash_text(null),
            url: String::new(),
            history: false,
            inner: null.to_owned(),
            token: None,
            apiurl: String::new(),
            appstate: AppState::default(),
        }
    }
}

impl ResponseBodyGeneric {
    /// Sets the payload and its type; the hash follows the payload.
    pub fn set_inner(self, json: String, datatype: DataType) -> (r: ResponseBodyGeneric)
        ensures
            r.inner@ == json@,
            r.datatype == datatype,
            r.hash@ == content_hash(json@),
            r.token == self.token,
            r.url == self.url,
            r.history == self.history,
            r.apiurl == self.apiurl,
            r.appstate == self.appstate,
    {
        let hash = hash_text(json.as_str());
        ResponseBodyGeneric { inner: json, datatype, hash, ..self }
    }

    pub fn set_history(self, enable: bool, url: &str) -> (r: ResponseBodyGeneric)
        ensures
            r.history == enable,
            r.url@ == url@,
            r.token == self.token,
            r.hash == self.hash,
            r.apiurl == self.apiurl,
            r.inner == self.inner,
            r.datatype == self.datatype,
            r.appstate == self.appstate,
    {
        ResponseBodyGeneric { history: enable, url: url.to_owned(), ..self }
    }

    pub fn set_appstate(self, appstate: AppState) -> (r: ResponseBodyGeneric)
        ensures
            r.appstate == appstate,
            r.token == self.token,
            r.hash == self.hash,
            r.url == self.url,
            r.history == self.history,
            r.apiurl == self.apiurl,
            r.inner == self.inner,
            r.datatype == self.datatype,
    {
        ResponseBodyGeneric { appstate, ..self }
    }

    /// Records the API path served and mints the token for it from `claims`.
    pub fn set_apiurl(self, apiurl: &str, key: &ApiKey, claims: &Claims, now: i64) -> (r: ResponseBodyGeneric)
        requires
            0 <= now <= MAX_TIMESTAMP,
        ensures
            r.apiurl@ == apiurl@,
            r.token matches Some(t) && t@ == jwt_of(rotated(claims@, apiurl@, now as int), key@)
                && jwt_claims_of(t@, key@) == Some(rotated(claims@, apiurl@, now as int)),
            r.hash == self.hash,
            r.url == self.url,
            r.history == self.history,
            r.inner == self.inner,
            r.datatype == self.datatype,
            r.appstate == self.appstate,
    {
        self.set_token(apiurl, key, claims, now)
    }

    fn set_token(self, apiurl: &str, key: &ApiKey, claims: &Claims, now: i64) -> (r: ResponseBodyGeneric)
        requires
            0 <= now <= MAX_TIMESTAMP,
        ensures
            r.apiurl@ == apiurl@,
            r.token matches Some(t) && t@ == jwt_of(rotated(claims@, apiurl@, now as int), key@)
                && jwt_claims_of(t@, key@) == Some(rotated(claims@, apiurl@, now as int)),
            r.hash == self.hash,
            r.url == self.url,
            r.history == self.history,
            r.inner == self.inner,
            r.datatype == self.datatype,
            r.appstate == self.appstate,
    {
        let fresh = claims.duplicate().set_aud(apiurl).set_iat_exp_nbf(RESPONSE_TOKEN_HOURS, now);
        let token = issue_token(&fresh, key);
        ResponseBodyGeneric { apiurl: apiurl.to_owned(), token: Some(token), ..self }
    }
}

/// `b` answers a request for `path` from holder of `c` at `now` with `payload`
/// of type `dt`: it carries the payload and its hash, echoes the path, enters
/// history only for navigable content, and holds a token for `path` minted
/// from `c` with a fresh window, which decodes under the key to those claims.
pub open spec fn is_envelope(b: ResponseBodyGeneric, c: ClaimsView, key: Seq<u8>, path: Seq<char>, payload: Seq<char>, dt: DataType, now: int) -> bool {
    &&& b.apiurl@ == path
    &&& b.token matches Some(t) && t@ == jwt_of(rotated(c, path, now), key)
        && jwt_claims_of(t@, key) == Some(rotated(c, path, now))
    &&& b.inner@ == payload
    &&& b.hash@ == content_hash(payload)
    &&& b.datatype == dt
    &&& b.history == dt.spec_navigable()
    &&& b.url@ == (if dt.spec_navigable() { path } else { Seq::empty() })
}

/// Builds the envelope for `payload` (JSON text) of type `datatype`, served at
/// `path` to the holder of `claims`.
pub fn build(claims: &Claims, key: &ApiKey, path: &str, payload: String, datatype: DataType, now: i64) -> (r: ResponseBodyGeneric)
    requires
        0 <= now <= MAX_TIMESTAMP,
    ensures
        is_envelope(r, claims@, key@, path@, payload@, datatype, now as int),
        !r.appstate.authorized,
        r.appstate.commit is None,
{
    let body = ResponseBodyGeneric::default().set_apiurl(path, key, claims, now).set_inner(payload, datatype);
    if datatype.is_navigable() {
        body.set_history(true, path)
    } else {
        assert(body.url@ =~= Seq::<char>::empty());
        body
    }
}

} // verus!
