//! Issuing and validating signed claim tokens (compact JWT, HS256).
use vstd::prelude::*;

use jsonwebtoken::{decode, encode, DecodingKey, EncodingKey, Header, Validation};
use serde_json::Value;
use std::collections::BTreeMap;

use crate::claims::{Claims, ClaimsView, claims_option_view};
use crate::errors::TokenError;
use crate::key::ApiKey;

verus! {

/// Seconds of clock skew allowed on either side of a token's time window.
pub const LEEWAY: i64 = 180;

#[verifier::external_type_specification]
#[verifier::external_body]
pub struct ExJwtError(jsonwebtoken::errors::Error);

/// The compact token that signs `claims` under `key`.
pub uninterp spec fn jwt_of(claims: ClaimsView, key: Seq<u8>) -> Seq<char>;

/// The claims that `token` carries when its HS256 signature verifies under
/// `key` and its payload holds the six claim fields; otherwise none.
pub uninterp spec fn jwt_claims_of(token: Seq<char>, key: Seq<u8>) -> Option<ClaimsView>;

/// Relies on `jsonwebtoken::encode` with the default header (HS256) and an HMAC
/// secret. The claims go in as a JSON object of strings and integers, which
/// serde_json always writes, and HMAC signing has no failure path, so the call
/// succeeds. Its `decode`, given the same secret, recomputes the same signature
/// and reads back the same six values.
#[verifier::external_body]
fn jwt_encode(claims: &Claims, key: &[u8]) -> (r: Result<String, jsonwebtoken::errors::Error>)
    ensures
        r is Ok,
        r matches Ok(t) ==> t@ == jwt_of(claims@, key@),
        r matches Ok(t) ==> jwt_claims_of(t@, key@) == Some(claims@),
{
    let payload = BTreeMap::from([
        ("iss", Value::from(claims.iss.as_str())),
        ("sub", Value::from(claims.sub.as_str())),
        ("aud", Value::from(claims.aud.as_str())),
        ("iat", Value::from(claims.iat)),
        ("nbf", Value::from(claims.nbf)),
        ("exp", Value::from(claims.exp)),
    ]);
    encode(&Header::default(), &payload, &EncodingKey::from_secret(key))
}

/// Relies on `jsonwebtoken::decode` with HS256 and its time checks switched
/// off: the signature is recomputed under `key` and compared, then the payload
/// is read as a JSON object whose six claim fields are moved into `Claims`.
#[verifier::external_body]
fn jwt_decode(token: &str, key: &[u8]) -> (r: Option<Claims>)
    ensures
        claims_option_view(r) == jwt_claims_of(token@, key@),
{
    let checks = Validation { validate_exp: false, ..Validation::default() };
    let m = decode::<BTreeMap<String, Value>>(token, &DecodingKey::from_secret(key), &checks);
    let m = m.ok()?.claims;
    Some(Claims {
        iss: m.get("iss")?.as_str()?.to_string(),
        sub: m.get("sub")?.as_str()?.to_string(),
        aud: m.get("aud")?.as_str()?.to_string(),
        iat: m.get("iat")?.as_i64()?,
        nbf: m.get("nbf")?.as_i64()?,
        exp: m.get("exp")?.as_i64()?,
    })
}

/// Claims are acceptable at `now` for `host`: inside their window, widened by
/// the leeway on both sides, and issued by `host`.
pub open spec fn valid_at(c: ClaimsView, host: Seq<char>, now: int) -> bool {
    &&& c.nbf - LEEWAY <= now
    &&& now <= c.exp + LEEWAY
    &&& c.iss == host
}

/// The first check that `c` fails at `now` for `host`, in the order expiry,
/// not-before, issuer.
pub open spec fn check_claims(c: ClaimsView, host: Seq<char>, now: int) -> Result<ClaimsView, TokenError> {
    if c.exp + LEEWAY < now {
        Err(TokenError::Expired)
    } else if now < c.nbf - LEEWAY {
        Err(TokenError::NotYetValid)
    } else if c.iss != host {
        Err(TokenError::IssuerMismatch)
    } else {
        Ok(c)
    }
}

/// What validating `token` under `key` for `host` at `now` gives.
pub open spec fn spec_validate(token: Seq<char>, key: Seq<u8>, host: Seq<char>, now: int) -> Result<ClaimsView, TokenError> {
    match jwt_claims_of(token, key) {
        None => Err(TokenError::SignatureInvalid),
        Some(c) => check_claims(c, host, now),
    }
}

pub open spec fn claims_result_view<E>(r: Result<Claims, E>) -> Result<ClaimsView, E> {
    match r {
        Ok(c) => Ok(c@),
        Err(e) => Err(e),
    }
}

/// Signs `claims` with `key`. The token validates back to exactly these claims
/// under the same key, for every host and time at which they are acceptable.
pub fn issue_token(claims: &Claims, key: &ApiKey) -> (r: String)
    ensures
        r@ == jwt_of(claims@, key@),
        jwt_claims_of(r@, key@) == Some(claims@),
        forall|host: Seq<char>, now: int|
            valid_at(claims@, host, now) ==> #[trigger] spec_validate(r@, key@, host, now) == Ok::<ClaimsView, TokenError>(claims@),
{
    match jwt_encode(claims, key.as_bytes()) {
        Ok(t) => t,
        Err(_) => String::new(),
    }
}

/// Validates `token` under `key`: its signature, then its time window at `now`
/// with the leeway, then its issuer against `hostname`.
pub fn validate_token(token: &str, key: &ApiKey, hostname: &str, now: i64) -> (r: Result<Claims, TokenError>)
    ensures
        claims_result_view(r) == spec_validate(token@, key@, hostname@, now as int),
{
    let c = match jwt_decode(token, key.as_bytes()) {
        None => return Err(TokenError::SignatureInvalid),
        Some(c) => c,
    };
    if (c.expires_at() as i128) + (LEEWAY as i128) < now as i128 {
        return Err(TokenError::Expired);
    }
    if (now as i128) < (c.not_before() as i128) - (LEEWAY as i128) {
        return Err(TokenError::NotYetValid);
    }
    let host = hostname.to_owned();
    if c.get_iss() != host {
        return Err(TokenError::IssuerMismatch);
    }
    Ok(c)
}

} // verus!
