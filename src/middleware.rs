//! Turning a presented bearer token into the caller's verified identity.

use vstd::prelude::*;
use crate::auth::{Claims, accepted_claims, token_claims, verify_jwt, verify_jwt_at};

verus! {

/// The verified identity of the caller of a protected endpoint.
#[derive(Debug, Clone)]
pub struct AuthUser(pub Claims);

/// Why a request to a protected endpoint was turned away.
#[derive(Debug, Clone, Copy, PartialEq, Eq, Structural)]
pub enum AuthRejection {
    /// No bearer credential was presented.
    MissingHeader,
    /// The credential is malformed, badly signed or expired; which one is not told.
    InvalidToken,
}

impl AuthUser {
    /// The caller identity for bearer token `bearer` at instant `now`.
    pub fn authenticate_at(secret: &[u8], bearer: Option<&str>, now: usize) -> (r: Result<
        AuthUser,
        AuthRejection,
    >)
        ensures
            bearer is None ==> r == Err::<AuthUser, AuthRejection>(AuthRejection::MissingHeader),
            bearer is Some ==> match r {
                Ok(u) => accepted_claims(token_claims(bearer->Some_0@, secret@), now as int)
                    == Some((u.0.sub@, u.0.exp as int)),
                Err(e) => e == AuthRejection::InvalidToken && accepted_claims(
                    token_claims(bearer->Some_0@, secret@),
                    now as int,
                ) is None,
            },
    {
        match bearer {
            None => Err(AuthRejection::MissingHeader),
            Some(token) => match verify_jwt_at(secret, token, now) {
                Ok(claims) => Ok(AuthUser(claims)),
                Err(_) => Err(AuthRejection::InvalidToken),
            },
        }
    }

    /// The caller identity for bearer token `bearer` at the current time.
    pub fn authenticate(secret: &[u8], bearer: Option<&str>) -> (r: Result<
        AuthUser,
        AuthRejection,
    >)
        ensures
            bearer is None ==> r == Err::<AuthUser, AuthRejection>(AuthRejection::MissingHeader),
            bearer is Some ==> match r {
                Ok(u) => exists|now: usize|
                    accepted_claims(token_claims(bearer->Some_0@, secret@), now as int) == Some((
                        u.0.sub@,
                        u.0.exp as int,
                    )),
                Err(e) => e == AuthRejection::InvalidToken,
            },
            bearer is Some && token_claims(bearer->Some_0@, secret@) is None ==> r is Err,
    {
        match bearer {
            None => Err(AuthRejection::MissingHeader),
            Some(token) => match verify_jwt(secret, token) {
                Ok(claims) => Ok(AuthUser(claims)),
                Err(_) => Err(AuthRejection::InvalidToken),
            },
        }
    }

    /// The identifier of the authenticated user.
    pub fn user_id(&self) -> (r: &str)
        ensures
            r@ == self.0.sub@,
    {
        self.0.sub.as_str()
    }
}

} // verus!
