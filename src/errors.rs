use vstd::prelude::*;

verus! {

/// Why a presented token was not accepted. Callers outside the library see all
/// of these as one "invalid token" condition.
#[derive(Clone, Copy, Debug, PartialEq, Eq, Structural)]
pub enum TokenError {
    /// The token is malformed or its signature does not verify under the key.
    SignatureInvalid,
    /// The expiry time, plus the leeway, lies before now.
    Expired,
    /// The not-before time, minus the leeway, lies after now.
    NotYetValid,
    /// The issuer is not the configured host name.
    IssuerMismatch,
}

/// The failures of the request guards and of the login exchange.
#[derive(Clone, Copy, Debug, PartialEq, Eq, Structural)]
pub enum AuthError {
    /// No credential was presented.
    Missing,
    /// A login named a user without a root directory, or gave a wrong password.
    WrongUsernamePassword,
    /// The subject's root directory no longer exists.
    UsernameInvalidated,
    /// The subject or the requested path would leave the subject's root.
    PathTraversalAttempt,
    /// The CSRF header token was not accepted.
    CSRFError(TokenError),
    /// The session cookie token was not accepted.
    JWTError(TokenError),
}

impl AuthError {
    /// Conditions on the path or the subject's root are forbidden (403); the
    /// rest ask the client to authorize again (401).
    pub open spec fn spec_status(self) -> u16 {
        match self {
            AuthError::PathTraversalAttempt | AuthError::UsernameInvalidated => 403,
            _ => 401,
        }
    }

    pub fn status(self) -> (r: u16)
        ensures
            r == self.spec_status(),
    {
        match self {
            AuthError::PathTraversalAttempt | AuthError::UsernameInvalidated => 403,
            _ => 401,
        }
    }
}

} // verus!
