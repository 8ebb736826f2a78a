//! Why the gateway turns a request down, and what the caller gets to see.

use crate::reply::{FORBIDDEN, UNAUTHORIZED};
use vstd::prelude::*;

verus! {

/// Why a request was turned down.
#[derive(Clone, Copy, Debug, PartialEq, Eq, Structural)]
pub enum AuthError {
    /// No `Authorization` header, or one with another scheme.
    MissingCredential,
    /// The credential does not decode: bad signature or no readable claims.
    MalformedCredential,
    /// The credential is not the subject's current token.
    RevokedOrStaleCredential,
    /// The store holds no record for the subject.
    IdentityNotFound,
    /// The store did not answer in time, or failed.
    StoreUnavailable,
    /// The subject's role is not the one the route requires.
    InsufficientRole,
}

/// How a route answers a subject whose role does not suffice. The choice is
/// the integrator's.
#[derive(Clone, Copy, Debug, PartialEq, Eq, Structural)]
pub enum RoleDenial {
    /// With 401, like a failed authentication.
    Unauthorized,
    /// With 403, apart from a failed authentication.
    Forbidden,
}

/// Whether an error belongs to authentication rather than authorization.
pub open spec fn is_authentication(error: AuthError) -> bool {
    error != AuthError::InsufficientRole
}

/// The status code an error is answered with. Every authentication error
/// gives 401; only a role denial may differ.
pub open spec fn status_of(error: AuthError, denial: RoleDenial) -> u16 {
    if error == AuthError::InsufficientRole && denial == RoleDenial::Forbidden {
        FORBIDDEN
    } else {
        UNAUTHORIZED
    }
}

/// The text sent to the caller after a failed authentication: one text,
/// whatever failed.
pub open spec fn unauthorized_text() -> Seq<char> {
    "Unauthorized: Invalid or missing token"@
}

/// How a role is written in the text of a denial.
pub open spec fn role_label(role: Seq<char>) -> Seq<char> {
    if role == "ngo"@ {
        "NGO"@
    } else if role == "local"@ {
        "Local"@
    } else {
        role
    }
}

/// The text sent to a caller whose role is not `required`.
pub open spec fn denial_text(required: Seq<char>) -> Seq<char> {
    "Unauthorized: Only "@ + role_label(required) + " role is allowed"@
}

/// The text sent to the caller. It tells authentication errors apart from a
/// role denial and from nothing else.
pub open spec fn public_text(error: AuthError, required: Option<Seq<char>>) -> Seq<char> {
    match (error, required) {
        (AuthError::InsufficientRole, Some(role)) => denial_text(role),
        _ => unauthorized_text(),
    }
}

/// The text kept for the operator, one for each kind of error.
pub open spec fn detail_text(error: AuthError) -> Seq<char> {
    match error {
        AuthError::MissingCredential => "no bearer credential in the request"@,
        AuthError::MalformedCredential => "credential does not decode"@,
        AuthError::RevokedOrStaleCredential => "credential is not the current token"@,
        AuthError::IdentityNotFound => "no identity record for the subject"@,
        AuthError::StoreUnavailable => "identity store unavailable"@,
        AuthError::InsufficientRole => "role does not match the required role"@,
    }
}

impl AuthError {
    /// The status code this error is answered with.
    pub fn status(self, denial: RoleDenial) -> (r: u16)
        ensures
            r == status_of(self, denial),
            is_authentication(self) ==> r == UNAUTHORIZED,
    {
        match (self, denial) {
            (AuthError::InsufficientRole, RoleDenial::Forbidden) => FORBIDDEN,
            _ => UNAUTHORIZED,
        }
    }

    /// The text sent to the caller; `required` is the role the route asks for.
    pub fn public_message(self, required: Option<&str>) -> (r: String)
        ensures
            r@ == public_text(self, crate::bearer::slice_view(required)),
    {
        match (self, required) {
            (AuthError::InsufficientRole, Some(role)) => {
                let mut text: String = "Unauthorized: Only ".to_owned();
                if crate::text::same_text(role, "ngo") {
                    text.append("NGO");
                } else if crate::text::same_text(role, "local") {
                    text.append("Local");
                } else {
                    text.append(role);
                }
                text.append(" role is allowed");
                text
            },
            _ => "Unauthorized: Invalid or missing token".to_owned(),
        }
    }

    /// The text kept for the operator.
    pub fn detail(self) -> (r: String)
        ensures
            r@ == detail_text(self),
    {
        match self {
            AuthError::MissingCredential => "no bearer credential in the request".to_owned(),
            AuthError::MalformedCredential => "credential does not decode".to_owned(),
            AuthError::RevokedOrStaleCredential => "credential is not the current token".to_owned(),
            AuthError::IdentityNotFound => "no identity record for the subject".to_owned(),
            AuthError::StoreUnavailable => "identity store unavailable".to_owned(),
            AuthError::InsufficientRole => "role does not match the required role".to_owned(),
        }
    }
}

} // verus!
