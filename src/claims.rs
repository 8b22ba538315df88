//! The signed fact set carried by session and CSRF tokens.
use vstd::prelude::*;

use crate::clock::{utc_now_seconds, MAX_TIMESTAMP};

verus! {

/// Seconds in one day: the lifetime of freshly made claims.
pub const DAY_SECONDS: i64 = 86400;

/// Seconds in one hour.
pub const HOUR_SECONDS: i64 = 3600;

/// What a `Claims` value states: issuer, subject, audience and the time
/// window, in whole seconds since the Unix epoch.
pub struct ClaimsView {
    pub iss: Seq<char>,
    pub sub: Seq<char>,
    pub aud: Seq<char>,
    pub iat: int,
    pub nbf: int,
    pub exp: int,
}

/// Issuer (the serving host), subject (the user name), audience (the API
/// path the token is for) and the time window of a token.
#[derive(Clone, Debug)]
pub struct Claims {
    pub(crate) iss: String,
    pub(crate) iat: i64,
    pub(crate) exp: i64,
    pub(crate) nbf: i64,
    pub(crate) sub: String,
    pub(crate) aud: String,
}

impl View for Claims {
    type V = ClaimsView;

    closed spec fn view(&self) -> ClaimsView {
        ClaimsView {
            iss: self.iss@,
            sub: self.sub@,
            aud: self.aud@,
            iat: self.iat as int,
            nbf: self.nbf as int,
            exp: self.exp as int,
        }
    }
}

/// The time fields are ordered: not-before, then issued-at, then expiry.
pub open spec fn window_ordered(c: ClaimsView) -> bool {
    c.nbf <= c.iat < c.exp
}

impl Claims {
    pub fn new(iss: &str, sub: &str, aud: &str, iat: i64, nbf: i64, exp: i64) -> (r: Claims)
        ensures
            r@ == (ClaimsView { iss: iss@, sub: sub@, aud: aud@, iat: iat as int, nbf: nbf as int, exp: exp as int }),
    {
        Claims {
            iss: iss.to_owned(),
            iat,
            exp,
            nbf,
            sub: sub.to_owned(),
            aud: aud.to_owned(),
        }
    }

    /// Claims with empty issuer, subject and audience, issued at `now` and
    /// valid for one day from then.
    pub fn new_at(now: i64) -> (r: Claims)
        requires
            now <= i64::MAX - DAY_SECONDS,
        ensures
            r@ == (ClaimsView {
                iss: Seq::empty(),
                sub: Seq::empty(),
                aud: Seq::empty(),
                iat: now as int,
                nbf: now as int,
                exp: now + DAY_SECONDS,
            }),
            window_ordered(r@),
    {
        Claims {
            iss: String::new(),
            iat: now,
            exp: now + DAY_SECONDS,
            nbf: now,
            sub: String::new(),
            aud: String::new(),
        }
    }

    pub fn set_aud(self, aud: &str) -> (r: Claims)
        ensures
            r@ == (ClaimsView { aud: aud@, ..self@ }),
    {
        Claims { aud: aud.to_owned(), ..self }
    }

    pub fn set_sub(self, sub: &str) -> (r: Claims)
        ensures
            r@ == (ClaimsView { sub: sub@, ..self@ }),
    {
        Claims { sub: sub.to_owned(), ..self }
    }

    pub fn set_iss(self, iss: &str) -> (r: Claims)
        ensures
            r@ == (ClaimsView { iss: iss@, ..self@ }),
    {
        Claims { iss: iss.to_owned(), ..self }
    }

    /// Restarts the time window at `now`: issued and valid from `now`, expiring
    /// `duration` hours later.
    pub fn set_iat_exp_nbf(self, duration: i64, now: i64) -> (r: Claims)
        requires
            i64::MIN <= now + duration * HOUR_SECONDS <= i64::MAX,
            i64::MIN <= duration * HOUR_SECONDS <= i64::MAX,
        ensures
            r@ == (ClaimsView {
                iat: now as int,
                nbf: now as int,
                exp: now + duration * HOUR_SECONDS,
                ..self@
            }),
            duration > 0 ==> window_ordered(r@),
    {
        let span = duration * HOUR_SECONDS;
        Claims { iat: now, nbf: now, exp: now + span, ..self }
    }

    pub fn get_sub(&self) -> (r: String)
        ensures
            r@ == self@.sub,
    {
        self.sub.clone()
    }

    pub fn get_aud(&self) -> (r: String)
        ensures
            r@ == self@.aud,
    {
        self.aud.clone()
    }

    pub fn get_iss(&self) -> (r: String)
        ensures
            r@ == self@.iss,
    {
        self.iss.clone()
    }

    pub fn issued_at(&self) -> (r: i64)
        ensures
            r == self@.iat,
    {
        self.iat
    }

    pub fn not_before(&self) -> (r: i64)
        ensures
            r == self@.nbf,
    {
        self.nbf
    }

    pub fn expires_at(&self) -> (r: i64)
        ensures
            r == self@.exp,
    {
        self.exp
    }

    /// A copy that states the same facts.
    pub fn duplicate(&self) -> (r: Claims)
        ensures
            r@ == self@,
    {
        Claims {
            iss: self.iss.clone(),
            iat: self.iat,
            exp: self.exp,
            nbf: self.nbf,
            sub: self.sub.clone(),
            aud: self.aud.clone(),
        }
    }
}

impl Default for Claims {
    /// Empty claims issued now and valid for one day.
    fn default() -> (r: Claims)
        ensures
            r@.iss.len() == 0,
            r@.sub.len() == 0,
            r@.aud.len() == 0,
            r@.nbf == r@.iat,
            r@.exp == r@.iat + DAY_SECONDS,
            0 <= r@.iat <= MAX_TIMESTAMP,
    {
        Claims::new_at(utc_now_seconds())
    }
}

pub open spec fn claims_option_view(o: Option<Claims>) -> Option<ClaimsView> {
    match o {
        Some(c) => Some(c@),
        None => None,
    }
}

} // verus!
