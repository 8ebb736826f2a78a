//! The request pipeline: validator, then rotator, then access gate, then the
//! handler.
//!
//! The pipeline performs no store operation and runs no handler. It is a
//! machine: [`Gateway::step`] takes the phase a request is in and what has
//! just happened, and gives the next phase and what the caller has to do
//! next. The first failure ends the request.

use crate::bearer::{bearer_header, bearer_value};
use crate::config::SigningSecret;
use crate::error::{public_text, status_of, AuthError, RoleDenial};
use crate::gate::{permits, permitted};
use crate::reply::{Refusal, RefusalView};
use crate::rotator::{
    rotate_token_middleware, rotation_step, Rotation, RotationAction, RotationActionView,
    RotationEvent, RotationView,
};
use crate::store::{text_view, LookupView, StoreLookup};
use crate::validator::{
    auth_middleware, auth_step, context_of, AuthAction, AuthActionView, AuthEvent, AuthEventView,
    AuthenticatedContext, ContextView, Session, SessionView, Validation, ValidationView,
};
use vstd::prelude::*;

verus! {

/// What a protected route is set up with.
pub struct Gateway {
    /// The secret that signs and verifies tokens.
    pub secret: SigningSecret,
    /// The role the route requires, if it requires one.
    pub required_role: Option<String>,
    /// How a subject without that role is answered.
    pub denial: RoleDenial,
    /// The time every store operation is given, in milliseconds.
    pub store_timeout_ms: u64,
}

/// The mathematical value of a [`Gateway`].
pub struct GatewayView {
    pub secret: Seq<u8>,
    pub required_role: Option<Seq<char>>,
    pub denial: RoleDenial,
    pub store_timeout_ms: u64,
}

impl View for Gateway {
    type V = GatewayView;

    open spec fn view(&self) -> GatewayView {
        GatewayView {
            secret: self.secret@,
            required_role: text_view(self.required_role),
            denial: self.denial,
            store_timeout_ms: self.store_timeout_ms,
        }
    }
}

/// Puts the pipeline of one route together: validator and rotator under
/// `secret`, and behind them the access gate for `required_role`.
pub fn merge_middlewares(
    secret: SigningSecret,
    required_role: Option<String>,
    denial: RoleDenial,
    store_timeout_ms: u64,
) -> (r: Gateway)
    ensures
        r@ == (GatewayView {
            secret: secret@,
            required_role: text_view(required_role),
            denial,
            store_timeout_ms,
        }),
{
    Gateway { secret, required_role, denial, store_timeout_ms }
}

/// Where a request stands in the pipeline.
#[derive(Debug)]
pub enum Phase {
    /// No request has come in.
    Idle,
    /// The validator waits for the store's answer; the request came in at
    /// `now`.
    Authenticating { validation: Validation, now: u64 },
    /// The rotator waits for the store to take the new token.
    Rotating { rotation: Rotation },
    /// The request has been answered or handed to the handler.
    Finished,
}

/// The mathematical value of a [`Phase`].
pub enum PhaseView {
    Idle,
    Authenticating { validation: ValidationView, now: u64 },
    Rotating { rotation: RotationView },
    Finished,
}

impl View for Phase {
    type V = PhaseView;

    open spec fn view(&self) -> PhaseView {
        match self {
            Phase::Idle => PhaseView::Idle,
            Phase::Authenticating { validation, now } => PhaseView::Authenticating {
                validation: validation@,
                now: *now,
            },
            Phase::Rotating { rotation } => PhaseView::Rotating { rotation: rotation@ },
            Phase::Finished => PhaseView::Finished,
        }
    }
}

/// What the pipeline is told.
#[derive(Debug)]
pub enum Event {
    /// A request came in at `now`, with this `Authorization` header if it
    /// has one.
    Request { authorization: Option<String>, now: u64 },
    /// The store answered the lookup. A lookup that ran out of time is
    /// `Unavailable`.
    Record(StoreLookup),
    /// The store was asked to take the new token, and did or did not.
    Written(bool),
}

/// The mathematical value of an [`Event`].
pub enum EventView {
    Request { authorization: Option<Seq<char>>, now: u64 },
    Record(LookupView),
    Written(bool),
}

impl View for Event {
    type V = EventView;

    open spec fn view(&self) -> EventView {
        match self {
            Event::Request { authorization, now } => EventView::Request {
                authorization: text_view(*authorization),
                now: *now,
            },
            Event::Record(lookup) => EventView::Record(lookup@),
            Event::Written(taken) => EventView::Written(*taken),
        }
    }
}

/// What the pipeline asks of its caller.
#[derive(Debug)]
pub enum Action {
    /// Look `subject` up in the store, within the time given, and come back
    /// with `Record`.
    FindBySubject { subject: String, within_ms: u64 },
    /// Store `token` as the current token of `subject`, within the time
    /// given, and come back with `Written`.
    UpdateCurrentToken { subject: String, token: String, within_ms: u64 },
    /// Run the handler with this context. Where `authorization` is set, put
    /// it on the response as its `Authorization` header: it carries the new
    /// token.
    RunHandler { context: AuthenticatedContext, authorization: Option<String> },
    /// Answer with the refusal, and do not run the handler. `error` is for
    /// the log. `authorization` as for `RunHandler`.
    Reject { error: AuthError, refusal: Refusal, authorization: Option<String> },
    /// The event does not belong to this phase: nothing to do.
    Nothing,
}

/// The mathematical value of an [`Action`].
pub enum ActionView {
    FindBySubject { subject: Seq<char>, within_ms: u64 },
    UpdateCurrentToken { subject: Seq<char>, token: Seq<char>, within_ms: u64 },
    RunHandler { context: ContextView, authorization: Option<Seq<char>> },
    Reject { error: AuthError, refusal: RefusalView, authorization: Option<Seq<char>> },
    Nothing,
}

impl View for Action {
    type V = ActionView;

    open spec fn view(&self) -> ActionView {
        match self {
            Action::FindBySubject { subject, within_ms } => ActionView::FindBySubject {
                subject: subject@,
                within_ms: *within_ms,
            },
            Action::UpdateCurrentToken { subject, token, within_ms } => {
                ActionView::UpdateCurrentToken {
                    subject: subject@,
                    token: token@,
                    within_ms: *within_ms,
                }
            },
            Action::RunHandler { context, authorization } => ActionView::RunHandler {
                context: context@,
                authorization: text_view(*authorization),
            },
            Action::Reject { error, refusal, authorization } => ActionView::Reject {
                error: *error,
                refusal: refusal@,
                authorization: text_view(*authorization),
            },
            Action::Nothing => ActionView::Nothing,
        }
    }
}

/// The header that carries a renewed token back, where there is one.
pub open spec fn renewal_header(renewed: Option<Seq<char>>) -> Option<Seq<char>> {
    match renewed {
        Some(token) => Some(bearer_value(token)),
        None => None,
    }
}

/// How `error` is answered on this route.
pub open spec fn refusal_for(cfg: GatewayView, error: AuthError) -> RefusalView {
    RefusalView {
        status: status_of(error, cfg.denial),
        message: public_text(error, cfg.required_role),
    }
}

/// The end of a request that failed authentication.
pub open spec fn turned_down(cfg: GatewayView, error: AuthError) -> ActionView {
    ActionView::Reject { error, refusal: refusal_for(cfg, error), authorization: None }
}

/// The end of an authenticated request: the access gate decides between the
/// handler and a denial. Either way a renewed token travels back.
pub open spec fn gated(cfg: GatewayView, session: SessionView, renewed: Option<Seq<char>>) -> ActionView {
    if permitted(session.role, cfg.required_role) {
        ActionView::RunHandler {
            context: context_of(session),
            authorization: renewal_header(renewed),
        }
    } else {
        ActionView::Reject {
            error: AuthError::InsufficientRole,
            refusal: refusal_for(cfg, AuthError::InsufficientRole),
            authorization: renewal_header(renewed),
        }
    }
}

/// What follows a step of the rotator.
pub open spec fn after_rotation(cfg: GatewayView, r: (RotationView, RotationActionView)) -> (
    PhaseView,
    ActionView,
) {
    match r.1 {
        RotationActionView::UpdateCurrentToken { subject, token } => (
            PhaseView::Rotating { rotation: r.0 },
            ActionView::UpdateCurrentToken { subject, token, within_ms: cfg.store_timeout_ms },
        ),
        RotationActionView::Continue => match r.0 {
            RotationView::Settled { session, renewed } => (
                PhaseView::Finished,
                gated(cfg, session, renewed),
            ),
            _ => (PhaseView::Rotating { rotation: r.0 }, ActionView::Nothing),
        },
        RotationActionView::Nothing => (PhaseView::Rotating { rotation: r.0 }, ActionView::Nothing),
    }
}

/// What follows a step of the validator, for a request that came in at `now`.
pub open spec fn after_auth(cfg: GatewayView, a: (ValidationView, AuthActionView), now: u64) -> (
    PhaseView,
    ActionView,
) {
    match a.1 {
        AuthActionView::FindBySubject { subject } => (
            PhaseView::Authenticating { validation: a.0, now },
            ActionView::FindBySubject { subject, within_ms: cfg.store_timeout_ms },
        ),
        AuthActionView::Reject { error } => (PhaseView::Finished, turned_down(cfg, error)),
        AuthActionView::Proceed { context } => match a.0 {
            ValidationView::Valid { session } => after_rotation(
                cfg,
                rotation_step(
                    RotationView::Trusted { session },
                    RotationEvent::Examine { now },
                    cfg.secret,
                ),
            ),
            _ => (PhaseView::Authenticating { validation: a.0, now }, ActionView::Nothing),
        },
        AuthActionView::Nothing => (
            PhaseView::Authenticating { validation: a.0, now },
            ActionView::Nothing,
        ),
    }
}

/// The pipeline's step.
pub open spec fn step_spec(cfg: GatewayView, phase: PhaseView, event: EventView) -> (
    PhaseView,
    ActionView,
) {
    match (phase, event) {
        (PhaseView::Idle, EventView::Request { authorization, now }) => after_auth(
            cfg,
            auth_step(
                ValidationView::NoCredential,
                AuthEventView::Request { authorization },
                cfg.secret,
            ),
            now,
        ),
        (PhaseView::Authenticating { validation, now }, EventView::Record(lookup)) => after_auth(
            cfg,
            auth_step(validation, AuthEventView::Record(lookup), cfg.secret),
            now,
        ),
        (PhaseView::Rotating { rotation }, EventView::Written(taken)) => after_rotation(
            cfg,
            rotation_step(rotation, RotationEvent::Written(taken), cfg.secret),
        ),
        _ => (phase, ActionView::Nothing),
    }
}

/// The mathematical value of a phase with an action.
pub open spec fn pair_view(r: (Phase, Action)) -> (PhaseView, ActionView) {
    (r.0@, r.1@)
}

impl Gateway {
    /// How `error` is answered on this route.
    pub fn refusal(&self, error: AuthError) -> (r: Refusal)
        ensures
            r@ == refusal_for(self@, error),
    {
        let required: Option<&str> = match &self.required_role {
            Some(role) => Some(role.as_str()),
            None => None,
        };
        Refusal { status: error.status(self.denial), message: error.public_message(required) }
    }

    /// Passes an authenticated session through the access gate.
    pub fn gate(&self, session: Session, renewed: Option<String>) -> (r: Action)
        ensures
            r@ == gated(self@, session@, text_view(renewed)),
    {
        let authorization: Option<String> = match &renewed {
            Some(token) => Some(bearer_header(token.as_str())),
            None => None,
        };
        let required: Option<&str> = match &self.required_role {
            Some(role) => Some(role.as_str()),
            None => None,
        };
        if permits(&session.role, required) {
            Action::RunHandler { context: session.context(), authorization }
        } else {
            Action::Reject {
                error: AuthError::InsufficientRole,
                refusal: self.refusal(AuthError::InsufficientRole),
                authorization,
            }
        }
    }

    /// Goes on after a step of the rotator.
    fn follow_rotation(&self, rotation: Rotation, action: RotationAction) -> (r: (Phase, Action))
        ensures
            pair_view(r) == after_rotation(self@, (rotation@, action@)),
    {
        match action {
            RotationAction::UpdateCurrentToken { subject, token } => (
                Phase::Rotating { rotation },
                Action::UpdateCurrentToken { subject, token, within_ms: self.store_timeout_ms },
            ),
            RotationAction::Continue => match rotation {
                Rotation::Settled { session, renewed } => (
                    Phase::Finished,
                    self.gate(session, renewed),
                ),
                other => (Phase::Rotating { rotation: other }, Action::Nothing),
            },
            RotationAction::Nothing => (Phase::Rotating { rotation }, Action::Nothing),
        }
    }

    /// Goes on after a step of the validator.
    fn follow_auth(&self, validation: Validation, action: AuthAction, now: u64) -> (r: (
        Phase,
        Action,
    ))
        ensures
            pair_view(r) == after_auth(self@, (validation@, action@), now),
    {
        match action {
            AuthAction::FindBySubject { subject } => (
                Phase::Authenticating { validation, now },
                Action::FindBySubject { subject, within_ms: self.store_timeout_ms },
            ),
            AuthAction::Reject { error } => (
                Phase::Finished,
                Action::Reject { error, refusal: self.refusal(error), authorization: None },
            ),
            AuthAction::Proceed { context } => match validation {
                Validation::Valid { session } => {
                    let (rotation, next) = rotate_token_middleware(
                        Rotation::Trusted { session },
                        RotationEvent::Examine { now },
                        self.secret.as_bytes(),
                    );
                    self.follow_rotation(rotation, next)
                },
                other => (Phase::Authenticating { validation: other, now }, Action::Nothing),
            },
            AuthAction::Nothing => (Phase::Authenticating { validation, now }, Action::Nothing),
        }
    }

    /// Moves a request one step on.
    ///
    /// Start from [`Phase::Idle`] with the request. Perform the store
    /// operation that comes back and call again with its outcome, until the
    /// action is `RunHandler` or `Reject`.
    pub fn step(&self, phase: Phase, event: Event) -> (r: (Phase, Action))
        ensures
            pair_view(r) == step_spec(self@, phase@, event@),
    {
        match (phase, event) {
            (Phase::Idle, Event::Request { authorization, now }) => {
                let (validation, action) = auth_middleware(
                    Validation::NoCredential,
                    AuthEvent::Request { authorization },
                    self.secret.as_bytes(),
                );
                self.follow_auth(validation, action, now)
            },
            (Phase::Authenticating { validation, now }, Event::Record(lookup)) => {
                let (validation, action) = auth_middleware(
                    validation,
                    AuthEvent::Record(lookup),
                    self.secret.as_bytes(),
                );
                self.follow_auth(validation, action, now)
            },
            (Phase::Rotating { rotation }, Event::Written(taken)) => {
                let (rotation, action) = rotate_token_middleware(
                    rotation,
                    RotationEvent::Written(taken),
                    self.secret.as_bytes(),
                );
                self.follow_rotation(rotation, action)
            },
            (phase, _) => (phase, Action::Nothing),
        }
    }
}

} // verus!
