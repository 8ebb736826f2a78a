//! The token validator.
//!
//! A request walks through the states `NoCredential`, `Decoding`, `Decoded`,
//! `MatchedAgainstStore` and `Valid`, and may fail at every step. Between
//! `Decoded` and `MatchedAgainstStore` stands the lookup in the identity
//! store, which the caller performs: [`auth_middleware`] asks for it and
//! takes the answer back as an event.

use crate::bearer::{bearer_credential, extract_bearer};
use crate::codec::{decode, decoding, Claims, ClaimsView};
use crate::error::AuthError;
use crate::store::{text_view, IdentityRecord, LookupView, RecordView, StoreLookup};
use vstd::prelude::*;

verus! {

/// A credential that the store has confirmed.
#[derive(Debug)]
pub struct Session {
    /// The raw token, as presented.
    pub token: String,
    /// Its claims.
    pub claims: Claims,
    /// The role on the subject's record.
    pub role: Option<String>,
}

/// The mathematical value of a [`Session`].
pub struct SessionView {
    pub token: Seq<char>,
    pub claims: ClaimsView,
    pub role: Option<Seq<char>>,
}

impl View for Session {
    type V = SessionView;

    open spec fn view(&self) -> SessionView {
        SessionView { token: self.token@, claims: self.claims@, role: text_view(self.role) }
    }
}

/// What a handler learns of the caller: who it is, and in which role.
#[derive(Debug)]
pub struct AuthenticatedContext {
    pub subject: String,
    pub role: Option<String>,
}

/// The mathematical value of an [`AuthenticatedContext`].
pub struct ContextView {
    pub subject: Seq<char>,
    pub role: Option<Seq<char>>,
}

impl View for AuthenticatedContext {
    type V = ContextView;

    open spec fn view(&self) -> ContextView {
        ContextView { subject: self.subject@, role: text_view(self.role) }
    }
}

/// The context that a session gives rise to.
pub open spec fn context_of(session: SessionView) -> ContextView {
    ContextView { subject: session.claims.sub, role: session.role }
}

impl Session {
    /// The context handed to the handler: the subject is the one the token
    /// claims.
    pub fn context(&self) -> (r: AuthenticatedContext)
        ensures
            r@ == context_of(self@),
    {
        AuthenticatedContext { subject: self.claims.sub.clone(), role: self.role.clone() }
    }
}

/// The state of one request in the validator.
#[derive(Debug)]
pub enum Validation {
    /// Nothing has been looked at yet.
    NoCredential,
    /// A bearer credential was found in the request.
    Decoding { token: String },
    /// The credential decoded; the store has not been asked yet.
    Decoded { token: String, claims: Claims },
    /// The store holds the credential as the subject's current token.
    MatchedAgainstStore { token: String, claims: Claims, record: IdentityRecord },
    /// The request is authenticated.
    Valid { session: Session },
    /// The request failed, and stays so.
    Failed { error: AuthError },
}

/// The mathematical value of a [`Validation`].
pub enum ValidationView {
    NoCredential,
    Decoding { token: Seq<char> },
    Decoded { token: Seq<char>, claims: ClaimsView },
    MatchedAgainstStore { token: Seq<char>, claims: ClaimsView, record: RecordView },
    Valid { session: SessionView },
    Failed { error: AuthError },
}

impl View for Validation {
    type V = ValidationView;

    open spec fn view(&self) -> ValidationView {
        match self {
            Validation::NoCredential => ValidationView::NoCredential,
            Validation::Decoding { token } => ValidationView::Decoding { token: token@ },
            Validation::Decoded { token, claims } => ValidationView::Decoded {
                token: token@,
                claims: claims@,
            },
            Validation::MatchedAgainstStore { token, claims, record } => {
                ValidationView::MatchedAgainstStore {
                    token: token@,
                    claims: claims@,
                    record: record@,
                }
            },
            Validation::Valid { session } => ValidationView::Valid { session: session@ },
            Validation::Failed { error } => ValidationView::Failed { error: *error },
        }
    }
}

/// From `NoCredential`: the credential is taken from the header, and a
/// request without one fails. Every other state stays.
pub open spec fn presented(v: ValidationView, authorization: Option<Seq<char>>) -> ValidationView {
    match v {
        ValidationView::NoCredential => match bearer_credential(authorization) {
            Some(token) => ValidationView::Decoding { token },
            None => ValidationView::Failed { error: AuthError::MissingCredential },
        },
        _ => v,
    }
}

/// From `Decoding`: the credential is decoded under the secret, whether or
/// not it has expired. Every other state stays.
pub open spec fn decoded(v: ValidationView, secret: Seq<u8>) -> ValidationView {
    match v {
        ValidationView::Decoding { token } => match decoding(token, secret) {
            Ok(claims) => ValidationView::Decoded { token, claims },
            Err(_) => ValidationView::Failed { error: AuthError::MalformedCredential },
        },
        _ => v,
    }
}

/// From `Decoded`: the credential must be, character for character, the
/// current token of the record that the store returned. Every other state
/// stays.
pub open spec fn matched(v: ValidationView, lookup: LookupView) -> ValidationView {
    match v {
        ValidationView::Decoded { token, claims } => match lookup {
            LookupView::Found(record) => if record.current_token == Some(token) {
                ValidationView::MatchedAgainstStore { token, claims, record }
            } else {
                ValidationView::Failed { error: AuthError::RevokedOrStaleCredential }
            },
            LookupView::NotFound => ValidationView::Failed { error: AuthError::IdentityNotFound },
            LookupView::Unavailable => ValidationView::Failed {
                error: AuthError::StoreUnavailable,
            },
        },
        _ => v,
    }
}

/// From `MatchedAgainstStore`: the request is valid. Every other state stays.
pub open spec fn concluded(v: ValidationView) -> ValidationView {
    match v {
        ValidationView::MatchedAgainstStore { token, claims, record } => ValidationView::Valid {
            session: SessionView { token, claims, role: record.role },
        },
        _ => v,
    }
}

impl Validation {
    /// Takes the credential from the `Authorization` header.
    pub fn present(self, authorization: Option<&str>) -> (r: Validation)
        ensures
            r@ == presented(self@, crate::bearer::slice_view(authorization)),
    {
        match self {
            Validation::NoCredential => match extract_bearer(authorization) {
                Some(token) => Validation::Decoding { token },
                None => Validation::Failed { error: AuthError::MissingCredential },
            },
            other => other,
        }
    }

    /// Decodes the credential.
    pub fn decode(self, secret: &[u8]) -> (r: Validation)
        ensures
            r@ == decoded(self@, secret@),
    {
        match self {
            Validation::Decoding { token } => match decode(token.as_str(), secret) {
                Ok(claims) => Validation::Decoded { token, claims },
                Err(_) => Validation::Failed { error: AuthError::MalformedCredential },
            },
            other => other,
        }
    }

    /// Compares the credential with what the store returned for its subject.
    pub fn compare(self, lookup: StoreLookup) -> (r: Validation)
        ensures
            r@ == matched(self@, lookup@),
    {
        match self {
            Validation::Decoded { token, claims } => match lookup {
                StoreLookup::Found(record) => {
                    let same: bool = match &record.current_token {
                        Some(current) => *current == token,
                        None => false,
                    };
                    if same {
                        Validation::MatchedAgainstStore { token, claims, record }
                    } else {
                        Validation::Failed { error: AuthError::RevokedOrStaleCredential }
                    }
                },
                StoreLookup::NotFound => Validation::Failed { error: AuthError::IdentityNotFound },
                StoreLookup::Unavailable => Validation::Failed {
                    error: AuthError::StoreUnavailable,
                },
            },
            other => other,
        }
    }

    /// Declares a matched credential valid.
    pub fn conclude(self) -> (r: Validation)
        ensures
            r@ == concluded(self@),
    {
        match self {
            Validation::MatchedAgainstStore { token, claims, record } => Validation::Valid {
                session: Session { token, claims, role: record.role },
            },
            other => other,
        }
    }
}

/// What the validator is told.
#[derive(Debug)]
pub enum AuthEvent {
    /// A request came in, with this `Authorization` header if it has one.
    Request { authorization: Option<String> },
    /// The store answered the lookup.
    Record(StoreLookup),
}

/// The mathematical value of an [`AuthEvent`].
pub enum AuthEventView {
    Request { authorization: Option<Seq<char>> },
    Record(LookupView),
}

impl View for AuthEvent {
    type V = AuthEventView;

    open spec fn view(&self) -> AuthEventView {
        match self {
            AuthEvent::Request { authorization } => AuthEventView::Request {
                authorization: text_view(*authorization),
            },
            AuthEvent::Record(lookup) => AuthEventView::Record(lookup@),
        }
    }
}

/// What the validator asks of its caller.
#[derive(Debug)]
pub enum AuthAction {
    /// Look the subject up in the store and come back with the answer.
    FindBySubject { subject: String },
    /// The request is authenticated: go on with this context.
    Proceed { context: AuthenticatedContext },
    /// Turn the request down.
    Reject { error: AuthError },
    /// The event does not belong to this state: nothing to do.
    Nothing,
}

/// The mathematical value of an [`AuthAction`].
pub enum AuthActionView {
    FindBySubject { subject: Seq<char> },
    Proceed { context: ContextView },
    Reject { error: AuthError },
    Nothing,
}

impl View for AuthAction {
    type V = AuthActionView;

    open spec fn view(&self) -> AuthActionView {
        match self {
            AuthAction::FindBySubject { subject } => AuthActionView::FindBySubject {
                subject: subject@,
            },
            AuthAction::Proceed { context } => AuthActionView::Proceed { context: context@ },
            AuthAction::Reject { error } => AuthActionView::Reject { error: *error },
            AuthAction::Nothing => AuthActionView::Nothing,
        }
    }
}

/// What a state asks of the caller once it is reached.
pub open spec fn action_in(v: ValidationView) -> AuthActionView {
    match v {
        ValidationView::Decoded { token, claims } => AuthActionView::FindBySubject {
            subject: claims.sub,
        },
        ValidationView::Valid { session } => AuthActionView::Proceed {
            context: context_of(session),
        },
        ValidationView::Failed { error } => AuthActionView::Reject { error },
        _ => AuthActionView::Nothing,
    }
}

/// The validator's step. A request moves a fresh validation up to the store
/// lookup; the store's answer moves a decoded one to its end. An event that
/// does not belong to the state changes nothing.
pub open spec fn auth_step(v: ValidationView, event: AuthEventView, secret: Seq<u8>) -> (
    ValidationView,
    AuthActionView,
) {
    match (v, event) {
        (ValidationView::NoCredential, AuthEventView::Request { authorization }) => {
            let next = decoded(presented(v, authorization), secret);
            (next, action_in(next))
        },
        (ValidationView::Decoded { .. }, AuthEventView::Record(lookup)) => {
            let next = concluded(matched(v, lookup));
            (next, action_in(next))
        },
        _ => (v, AuthActionView::Nothing),
    }
}

/// The mathematical value of a state with an action.
pub open spec fn auth_pair_view(r: (Validation, AuthAction)) -> (ValidationView, AuthActionView) {
    (r.0@, r.1@)
}

impl Validation {
    /// What this state asks of the caller.
    pub fn action(&self) -> (r: AuthAction)
        ensures
            r@ == action_in(self@),
    {
        match self {
            Validation::Decoded { token, claims } => AuthAction::FindBySubject {
                subject: claims.sub.clone(),
            },
            Validation::Valid { session } => AuthAction::Proceed { context: session.context() },
            Validation::Failed { error } => AuthAction::Reject { error: *error },
            _ => AuthAction::Nothing,
        }
    }
}

/// Authenticates a request, one event at a time.
///
/// Start from [`Validation::NoCredential`] with the request. Where the
/// action is `FindBySubject`, look the subject up and call again with the
/// answer. `Proceed` and `Reject` end the validation. No step writes to the
/// store.
pub fn auth_middleware(state: Validation, event: AuthEvent, secret: &[u8]) -> (r: (
    Validation,
    AuthAction,
))
    ensures
        auth_pair_view(r) == auth_step(state@, event@, secret@),
{
    match (state, event) {
        (Validation::NoCredential, AuthEvent::Request { authorization }) => {
            let header: Option<&str> = match &authorization {
                Some(h) => Some(h.as_str()),
                None => None,
            };
            let next = Validation::NoCredential.present(header).decode(secret);
            let action = next.action();
            (next, action)
        },
        (Validation::Decoded { token, claims }, AuthEvent::Record(lookup)) => {
            let next = (Validation::Decoded { token, claims }).compare(lookup).conclude();
            let action = next.action();
            (next, action)
        },
        (state, _) => (state, AuthAction::Nothing),
    }
}

} // verus!
