//! The token rotator.
//!
//! It runs on a session that the validator has confirmed. A token whose
//! expiry still lies ahead passes through. One whose expiry is now or past is
//! replaced: a token for one more hour is minted, the caller is asked to store
//! it as the subject's current token, and only if the store took it does the
//! session go on under the new token. Rotation never fails a request.

use crate::codec::{issue, issuing, Claims, ClaimsView, HOUR};
use crate::validator::{Session, SessionView};
use vstd::prelude::*;

verus! {

/// A token is due for rotation when its expiry is now or in the past.
pub open spec fn due(exp: nat, now: u64) -> bool {
    exp <= now
}

/// Whether a token with expiry `exp` is due for rotation at `now`.
pub fn needs_rotation(exp: usize, now: u64) -> (r: bool)
    ensures
        r == due(exp as nat, now),
{
    exp as u64 <= now
}

/// The state of one request in the rotator.
#[derive(Debug)]
pub enum Rotation {
    /// The session was confirmed and has not been looked at.
    Trusted { session: Session },
    /// A replacement was minted; the store has been asked to take it.
    Writing { session: Session, minted: String, expires: usize },
    /// Done. `renewed` is the new token where the session goes on under one.
    Settled { session: Session, renewed: Option<String> },
}

/// The mathematical value of a [`Rotation`].
pub enum RotationView {
    Trusted { session: SessionView },
    Writing { session: SessionView, minted: Seq<char>, expires: nat },
    Settled { session: SessionView, renewed: Option<Seq<char>> },
}

impl View for Rotation {
    type V = RotationView;

    open spec fn view(&self) -> RotationView {
        match self {
            Rotation::Trusted { session } => RotationView::Trusted { session: session@ },
            Rotation::Writing { session, minted, expires } => RotationView::Writing {
                session: session@,
                minted: minted@,
                expires: *expires as nat,
            },
            Rotation::Settled { session, renewed } => RotationView::Settled {
                session: session@,
                renewed: crate::store::text_view(*renewed),
            },
        }
    }
}

/// What the rotator is told.
#[derive(Clone, Copy, Debug)]
pub enum RotationEvent {
    /// Look at the session; the request came in at `now`.
    Examine { now: u64 },
    /// The store was asked to take the minted token, and did or did not.
    Written(bool),
}

/// What the rotator asks of its caller.
#[derive(Debug)]
pub enum RotationAction {
    /// Store `token` as the current token of `subject` and come back with
    /// the outcome.
    UpdateCurrentToken { subject: String, token: String },
    /// Go on with the request.
    Continue,
    /// The event does not belong to this state: nothing to do.
    Nothing,
}

/// The mathematical value of a [`RotationAction`].
pub enum RotationActionView {
    UpdateCurrentToken { subject: Seq<char>, token: Seq<char> },
    Continue,
    Nothing,
}

impl View for RotationAction {
    type V = RotationActionView;

    open spec fn view(&self) -> RotationActionView {
        match self {
            RotationAction::UpdateCurrentToken { subject, token } => {
                RotationActionView::UpdateCurrentToken { subject: subject@, token: token@ }
            },
            RotationAction::Continue => RotationActionView::Continue,
            RotationAction::Nothing => RotationActionView::Nothing,
        }
    }
}

/// The session as it goes on under a minted token.
pub open spec fn renewed_session(session: SessionView, minted: Seq<char>, expires: nat) -> SessionView {
    SessionView {
        token: minted,
        claims: ClaimsView { sub: session.claims.sub, exp: expires },
        role: session.role,
    }
}

/// The rotator's step.
///
/// Examining a trusted session settles it unchanged where its token is not
/// due, or where no replacement can be minted; otherwise a replacement that
/// expires an hour after `now` is minted and the store is asked to take it.
/// The store's answer settles the session: under the new token where the
/// store took it, unchanged where it did not. An event that does not belong
/// to the state changes nothing.
pub open spec fn rotation_step(state: RotationView, event: RotationEvent, secret: Seq<u8>) -> (
    RotationView,
    RotationActionView,
) {
    match (state, event) {
        (RotationView::Trusted { session }, RotationEvent::Examine { now }) => {
            if !due(session.claims.exp, now) {
                (RotationView::Settled { session, renewed: None }, RotationActionView::Continue)
            } else {
                match issuing(session.claims.sub, HOUR, now, secret) {
                    Ok(minted) => (
                        RotationView::Writing { session, minted, expires: (now + HOUR) as nat },
                        RotationActionView::UpdateCurrentToken {
                            subject: session.claims.sub,
                            token: minted,
                        },
                    ),
                    Err(_) => (
                        RotationView::Settled { session, renewed: None },
                        RotationActionView::Continue,
                    ),
                }
            }
        },
        (RotationView::Writing { session, minted, expires }, RotationEvent::Written(taken)) => {
            if taken {
                (
                    RotationView::Settled {
                        session: renewed_session(session, minted, expires),
                        renewed: Some(minted),
                    },
                    RotationActionView::Continue,
                )
            } else {
                (RotationView::Settled { session, renewed: None }, RotationActionView::Continue)
            }
        },
        _ => (state, RotationActionView::Nothing),
    }
}

/// The mathematical value of a state with an action.
pub open spec fn rotation_pair_view(r: (Rotation, RotationAction)) -> (
    RotationView,
    RotationActionView,
) {
    (r.0@, r.1@)
}

/// Rotates the token of a confirmed session, one event at a time.
///
/// Start from [`Rotation::Trusted`] with `Examine`. Where the action is
/// `UpdateCurrentToken`, perform the write and call again with `Written`.
/// `Continue` leaves the rotation `Settled`.
pub fn rotate_token_middleware(state: Rotation, event: RotationEvent, secret: &[u8]) -> (r: (
    Rotation,
    RotationAction,
))
    ensures
        rotation_pair_view(r) == rotation_step(state@, event, secret@),
{
    match (state, event) {
        (Rotation::Trusted { session }, RotationEvent::Examine { now }) => {
            if !needs_rotation(session.claims.exp, now) {
                return (Rotation::Settled { session, renewed: None }, RotationAction::Continue);
            }
            match issue(session.claims.sub.as_str(), HOUR, now, secret) {
                Ok(minted) => {
                    let expires: usize = (now + HOUR) as usize;
                    let action = RotationAction::UpdateCurrentToken {
                        subject: session.claims.sub.clone(),
                        token: minted.clone(),
                    };
                    (Rotation::Writing { session, minted, expires }, action)
                },
                Err(_) => (Rotation::Settled { session, renewed: None }, RotationAction::Continue),
            }
        },
        (Rotation::Writing { session, minted, expires }, RotationEvent::Written(taken)) => {
            if taken {
                let renewed: Option<String> = Some(minted.clone());
                let next = Session {
                    token: minted,
                    claims: Claims { sub: session.claims.sub, exp: expires },
                    role: session.role,
                };
                (Rotation::Settled { session: next, renewed }, RotationAction::Continue)
            } else {
                (Rotation::Settled { session, renewed: None }, RotationAction::Continue)
            }
        },
        (state, _) => (state, RotationAction::Nothing),
    }
}

} // verus!
