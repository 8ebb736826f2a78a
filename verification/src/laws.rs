//! What holds of the gateway as a whole.
//!
//! The laws speak of a request served against a store. The store is the
//! mathematical one of [`crate::store`]; serving is the pipeline's step
//! function run to its end, with the store answering each action.

use crate::bearer::{
    bearer_credential, bearer_value, bearer_value_of_credential, credential_of_bearer_value,
    has_scheme,
};
use crate::codec::{decoding, issued_token_decodes, issuing, ClaimsView, DecodeError, HOUR};
use crate::error::{denial_text, is_authentication, status_of, unauthorized_text, AuthError};
use crate::gate::permitted;
use crate::pipeline::{step_spec, ActionView, EventView, GatewayView, PhaseView};
use crate::reply::UNAUTHORIZED;
use crate::rotator::due;
use crate::store::{keyed_by_subject, lookup_in, with_current_token, StoreModel};
use crate::validator::{
    auth_step, AuthActionView, AuthEventView, ContextView, SessionView, ValidationView,
};
use vstd::prelude::*;

verus! {

/// Where validation ends for a request with this `Authorization` header
/// against `store`; `reachable` says whether the store answers.
pub open spec fn authenticate(
    store: StoreModel,
    authorization: Option<Seq<char>>,
    secret: Seq<u8>,
    reachable: bool,
) -> ValidationView {
    let first = auth_step(
        ValidationView::NoCredential,
        AuthEventView::Request { authorization },
        secret,
    );
    match first.1 {
        AuthActionView::FindBySubject { subject } => auth_step(
            first.0,
            AuthEventView::Record(lookup_in(store, subject, reachable)),
            secret,
        ).0,
        _ => first.0,
    }
}

/// A request that has been served.
pub struct Served {
    /// The store afterwards.
    pub store: StoreModel,
    /// How the request ended.
    pub outcome: ActionView,
    /// How many lookups the store was asked for.
    pub lookups: nat,
    /// How many writes the store was asked for.
    pub writes: nat,
    /// The write the store was asked for, if any: the subject and the token
    /// to make its current one.
    pub asked: Option<(Seq<char>, Seq<char>)>,
}

/// Serves one request that comes in at `now` against `store`. `reachable`
/// says whether the store answers the lookup, `writable` whether it takes a
/// write.
pub open spec fn serve(
    cfg: GatewayView,
    store: StoreModel,
    authorization: Option<Seq<char>>,
    now: u64,
    reachable: bool,
    writable: bool,
) -> Served {
    let first = step_spec(cfg, PhaseView::Idle, EventView::Request { authorization, now });
    match first.1 {
        ActionView::FindBySubject { subject, within_ms } => {
            let second = step_spec(
                cfg,
                first.0,
                EventView::Record(lookup_in(store, subject, reachable)),
            );
            match second.1 {
                ActionView::UpdateCurrentToken { subject: holder, token, within_ms } => {
                    let third = step_spec(cfg, second.0, EventView::Written(writable));
                    Served {
                        store: if writable {
                            with_current_token(store, holder, token)
                        } else {
                            store
                        },
                        outcome: third.1,
                        lookups: 1,
                        writes: 1,
                        asked: Some((holder, token)),
                    }
                },
                _ => Served { store, outcome: second.1, lookups: 1, writes: 0, asked: None },
            }
        },
        _ => Served { store, outcome: first.1, lookups: 0, writes: 0, asked: None },
    }
}

/// Whether a request ended at the handler.
pub open spec fn reached_handler(outcome: ActionView) -> bool {
    outcome is RunHandler
}

/// The header value that an outcome puts on the response.
pub open spec fn response_header(outcome: ActionView) -> Option<Seq<char>> {
    match outcome {
        ActionView::RunHandler { context, authorization } => authorization,
        ActionView::Reject { error, refusal, authorization } => authorization,
        _ => None,
    }
}

/// Every request is answered: it ends at the handler or in a refusal, after
/// at most one lookup and at most one write.
pub proof fn every_request_ends(
    cfg: GatewayView,
    store: StoreModel,
    authorization: Option<Seq<char>>,
    now: u64,
    reachable: bool,
    writable: bool,
)
    ensures
        ({
            let served = serve(cfg, store, authorization, now, reachable, writable);
            &&& served.outcome is RunHandler || served.outcome is Reject
            &&& served.lookups <= 1
            &&& served.writes <= served.lookups
        }),
{
}

/// A token that decodes and is the current token of its subject is accepted,
/// and the subject that validation resolves is the one the token claims.
/// Validation itself does not look at the expiry.
pub proof fn current_token_is_valid(
    store: StoreModel,
    authorization: Option<Seq<char>>,
    token: Seq<char>,
    claims: ClaimsView,
    secret: Seq<u8>,
)
    requires
        authorization == Some(bearer_value(token)),
        decoding(token, secret) == Ok::<ClaimsView, DecodeError>(claims),
        store.dom().contains(claims.sub),
        store[claims.sub].current_token == Some(token),
    ensures
        authenticate(store, authorization, secret, true) == (ValidationView::Valid {
            session: SessionView { token, claims, role: store[claims.sub].role },
        }),
{
    credential_of_bearer_value(token);
}

/// The credential of a request is what follows the one `Bearer ` at the
/// front of its header. Validation succeeds exactly when the store answers,
/// that credential decodes, and it is, character for character, the current
/// token of the subject it claims; in every other case it fails.
pub proof fn validation_succeeds_exactly_when(
    store: StoreModel,
    authorization: Option<Seq<char>>,
    secret: Seq<u8>,
    reachable: bool,
)
    ensures
        ({
            let verdict = authenticate(store, authorization, secret, reachable);
            &&& verdict is Valid || verdict is Failed
            &&& verdict is Valid <==> {
                &&& reachable
                &&& authorization matches Some(header)
                &&& has_scheme(header)
                &&& decoding(header.skip(7), secret) matches Ok(claims)
                &&& store.dom().contains(claims.sub)
                &&& store[claims.sub].current_token == Some(header.skip(7))
            }
        }),
{
}

/// A header that repeats the scheme carries the second `Bearer ` as part of
/// its credential. Where that longer text is not the subject's current token
/// the request is turned away, even if what follows both prefixes is.
pub proof fn repeated_scheme_is_part_of_the_credential(
    store: StoreModel,
    token: Seq<char>,
    secret: Seq<u8>,
    reachable: bool,
)
    ensures
        bearer_credential(Some(bearer_value(bearer_value(token)))) == Some(bearer_value(token)),
        bearer_value(token) != token,
        (forall|subject: Seq<char>|
            store.dom().contains(subject) ==> (#[trigger] store[subject]).current_token != Some(
                bearer_value(token),
            )) ==> authenticate(
            store,
            Some(bearer_value(bearer_value(token))),
            secret,
            reachable,
        ) is Failed,
{
    credential_of_bearer_value(bearer_value(token));
    assert(bearer_value(token).len() == token.len() + 7);
}

/// A request with a current token that has not run out reaches the handler
/// of a route whose gate its role passes. The handler sees the subject that
/// the token claims, no header is rewritten and the store is left alone.
pub proof fn unexpired_current_token_passes(
    cfg: GatewayView,
    store: StoreModel,
    authorization: Option<Seq<char>>,
    token: Seq<char>,
    claims: ClaimsView,
    now: u64,
    writable: bool,
)
    requires
        authorization == Some(bearer_value(token)),
        decoding(token, cfg.secret) == Ok::<ClaimsView, DecodeError>(claims),
        store.dom().contains(claims.sub),
        store[claims.sub].current_token == Some(token),
        claims.exp > now,
        permitted(store[claims.sub].role, cfg.required_role),
    ensures
        ({
            let served = serve(cfg, store, authorization, now, true, writable);
            &&& served.outcome == (ActionView::RunHandler {
                context: ContextView { subject: claims.sub, role: store[claims.sub].role },
                authorization: None,
            })
            &&& served.writes == 0
            &&& served.store == store
        }),
{
    credential_of_bearer_value(token);
}

/// A request with a current token that has not run out, from a subject
/// whose role is not the one the route requires, is denied: the handler does
/// not run, the status is the one the integrator chose for denials, and the
/// store is left alone. A subject without a role is denied wherever a role
/// is required.
pub proof fn insufficient_role_is_denied(
    cfg: GatewayView,
    store: StoreModel,
    authorization: Option<Seq<char>>,
    token: Seq<char>,
    claims: ClaimsView,
    now: u64,
    writable: bool,
)
    requires
        authorization == Some(bearer_value(token)),
        decoding(token, cfg.secret) == Ok::<ClaimsView, DecodeError>(claims),
        store.dom().contains(claims.sub),
        store[claims.sub].current_token == Some(token),
        claims.exp > now,
        cfg.required_role is Some,
        store[claims.sub].role != cfg.required_role,
    ensures
        ({
            let served = serve(cfg, store, authorization, now, true, writable);
            &&& served.outcome matches ActionView::Reject { error, refusal, authorization: header }
            &&& error == AuthError::InsufficientRole
            &&& refusal.status == status_of(AuthError::InsufficientRole, cfg.denial)
            &&& refusal.message == denial_text(cfg.required_role->Some_0)
            &&& header is None
            &&& served.writes == 0
            &&& served.store == store
        }),
{
    credential_of_bearer_value(token);
}

/// A request without a bearer credential is turned away with 401, whatever
/// the store holds.
pub proof fn missing_credential_is_rejected(
    cfg: GatewayView,
    store: StoreModel,
    authorization: Option<Seq<char>>,
    now: u64,
    reachable: bool,
    writable: bool,
)
    requires
        bearer_credential(authorization) is None,
    ensures
        authenticate(store, authorization, cfg.secret, reachable) == (ValidationView::Failed {
            error: AuthError::MissingCredential,
        }),
        ({
            let served = serve(cfg, store, authorization, now, reachable, writable);
            &&& served.outcome matches ActionView::Reject { error, refusal, authorization: header }
            &&& error == AuthError::MissingCredential
            &&& refusal.status == UNAUTHORIZED
            &&& refusal.message == unauthorized_text()
            &&& header is None
            &&& served.lookups == 0
            &&& served.writes == 0
            &&& served.store == store
        }),
{
}

/// A token that does not decode under the secret, be it for its signature or
/// for its structure, is turned away with 401. Neither its claims nor the
/// store play any part: the store is not even asked.
pub proof fn undecodable_token_is_rejected(
    cfg: GatewayView,
    store: StoreModel,
    authorization: Option<Seq<char>>,
    token: Seq<char>,
    now: u64,
    reachable: bool,
    writable: bool,
)
    requires
        authorization == Some(bearer_value(token)),
        decoding(token, cfg.secret) is Err,
    ensures
        authenticate(store, authorization, cfg.secret, reachable) == (ValidationView::Failed {
            error: AuthError::MalformedCredential,
        }),
        ({
            let served = serve(cfg, store, authorization, now, reachable, writable);
            &&& served.outcome matches ActionView::Reject { error, refusal, authorization: header }
            &&& error == AuthError::MalformedCredential
            &&& refusal.status == UNAUTHORIZED
            &&& refusal.message == unauthorized_text()
            &&& header is None
            &&& served.lookups == 0
            &&& served.writes == 0
            &&& served.store == store
        }),
{
    credential_of_bearer_value(token);
}

/// A token whose signature does not verify does not decode.
pub proof fn bad_signature_does_not_decode(token: Seq<char>, secret: Seq<u8>)
    requires
        crate::codec::jwt_reading(token, secret) is BadSignature,
    ensures
        decoding(token, secret) == Err::<ClaimsView, DecodeError>(DecodeError::BadSignature),
{
}

/// Every failure of authentication looks the same from outside: status 401,
/// one text, no header.
pub proof fn authentication_failures_look_alike(
    cfg: GatewayView,
    store: StoreModel,
    authorization: Option<Seq<char>>,
    now: u64,
    reachable: bool,
    writable: bool,
)
    ensures
        ({
            let served = serve(cfg, store, authorization, now, reachable, writable);
            served.outcome matches ActionView::Reject { error, refusal, authorization: header }
                ==> (is_authentication(error) ==> refusal.status == UNAUTHORIZED && refusal.message
                == unauthorized_text() && header is None && served.writes == 0 && served.store
                == store)
        }),
{
}

/// Revocation by overwrite: against a store whose current token for the
/// subject is not the one presented, validation fails, however sound the
/// token is.
pub proof fn stale_token_is_rejected(
    store: StoreModel,
    authorization: Option<Seq<char>>,
    token: Seq<char>,
    claims: ClaimsView,
    secret: Seq<u8>,
    reachable: bool,
)
    requires
        authorization == Some(bearer_value(token)),
        decoding(token, secret) == Ok::<ClaimsView, DecodeError>(claims),
        !store.dom().contains(claims.sub) || store[claims.sub].current_token != Some(token),
    ensures
        authenticate(store, authorization, secret, reachable) matches ValidationView::Failed {
            error,
        } && error == (if !reachable {
            AuthError::StoreUnavailable
        } else if !store.dom().contains(claims.sub) {
            AuthError::IdentityNotFound
        } else {
            AuthError::RevokedOrStaleCredential
        }),
{
    credential_of_bearer_value(token);
}

/// Revocation by overwrite, as it happens: once another token has become the
/// subject's current token, a token that was current before is turned away.
pub proof fn overwritten_token_is_rejected(
    store: StoreModel,
    authorization: Option<Seq<char>>,
    token: Seq<char>,
    claims: ClaimsView,
    replacement: Seq<char>,
    secret: Seq<u8>,
)
    requires
        authorization == Some(bearer_value(token)),
        decoding(token, secret) == Ok::<ClaimsView, DecodeError>(claims),
        store.dom().contains(claims.sub),
        store[claims.sub].current_token == Some(token),
        replacement != token,
    ensures
        authenticate(store, authorization, secret, true) is Valid,
        authenticate(
            with_current_token(store, claims.sub, replacement),
            authorization,
            secret,
            true,
        ) == (ValidationView::Failed { error: AuthError::RevokedOrStaleCredential }),
{
    credential_of_bearer_value(token);
}

/// A request whose token has not run out asks the store for no write, however
/// it ends; and where it reached the handler, the same request made again
/// before the token runs out ends in the same way, again without a write.
pub proof fn unexpired_requests_write_nothing(
    cfg: GatewayView,
    store: StoreModel,
    authorization: Option<Seq<char>>,
    token: Seq<char>,
    claims: ClaimsView,
    first_time: u64,
    second_time: u64,
    reachable: bool,
    writable: bool,
)
    requires
        authorization == Some(bearer_value(token)),
        decoding(token, cfg.secret) == Ok::<ClaimsView, DecodeError>(claims),
        claims.exp > first_time,
        claims.exp > second_time,
    ensures
        ({
            let first = serve(cfg, store, authorization, first_time, reachable, writable);
            let second = serve(cfg, first.store, authorization, second_time, reachable, writable);
            &&& first.writes == 0
            &&& first.store == store
            &&& second.writes == 0
            &&& second.store == store
            &&& second.outcome == first.outcome
        }),
{
    credential_of_bearer_value(token);
}

/// One rotation attempt at most, and exactly one where a replacement can be
/// minted. A request whose token has run out but still is the subject's
/// current token asks the store for one write, for that subject and the
/// token issued for one hour from the time of the request; it asks for none
/// only where no such token can be issued. Whether the store takes the write
/// or not, no second one follows.
pub proof fn expired_token_is_rotated_once(
    cfg: GatewayView,
    store: StoreModel,
    authorization: Option<Seq<char>>,
    token: Seq<char>,
    claims: ClaimsView,
    now: u64,
    writable: bool,
)
    requires
        authorization == Some(bearer_value(token)),
        decoding(token, cfg.secret) == Ok::<ClaimsView, DecodeError>(claims),
        store.dom().contains(claims.sub),
        store[claims.sub].current_token == Some(token),
        due(claims.exp, now),
    ensures
        ({
            let minted = issuing(claims.sub, HOUR, now, cfg.secret);
            let served = serve(cfg, store, authorization, now, true, writable);
            &&& served.lookups == 1
            &&& served.writes == (if minted is Ok { 1nat } else { 0nat })
            &&& served.asked == (match minted {
                Ok(replacement) => Some((claims.sub, replacement)),
                Err(_) => None,
            })
            &&& served.outcome is RunHandler || served.outcome is Reject
            &&& reached_handler(served.outcome) == permitted(
                store[claims.sub].role,
                cfg.required_role,
            )
        }),
{
    credential_of_bearer_value(token);
}

/// Rotation. A request whose token has run out but still is the subject's
/// current token is served with exactly one write. Where the store takes it,
/// the response carries the token issued for one hour from the time of the
/// request, that token is the subject's current token afterwards, and the
/// old token is turned away from then on.
pub proof fn expired_current_token_is_rotated(
    cfg: GatewayView,
    store: StoreModel,
    authorization: Option<Seq<char>>,
    token: Seq<char>,
    claims: ClaimsView,
    now: u64,
)
    requires
        authorization == Some(bearer_value(token)),
        decoding(token, cfg.secret) == Ok::<ClaimsView, DecodeError>(claims),
        store.dom().contains(claims.sub),
        store[claims.sub].current_token == Some(token),
        due(claims.exp, now),
        issuing(claims.sub, HOUR, now, cfg.secret) is Ok,
    ensures
        ({
            let minted = issuing(claims.sub, HOUR, now, cfg.secret)->Ok_0;
            let served = serve(cfg, store, authorization, now, true, true);
            &&& served.writes == 1
            &&& served.lookups == 1
            &&& response_header(served.outcome) == Some(bearer_value(minted))
            &&& decoding(minted, cfg.secret) == Ok::<ClaimsView, DecodeError>(
                ClaimsView { sub: claims.sub, exp: (now + HOUR) as nat },
            )
            &&& minted != token
            &&& served.store == with_current_token(store, claims.sub, minted)
            &&& served.store[claims.sub].current_token == Some(minted)
            &&& reached_handler(served.outcome) == permitted(
                store[claims.sub].role,
                cfg.required_role,
            )
            &&& authenticate(served.store, authorization, cfg.secret, true) == (
            ValidationView::Failed { error: AuthError::RevokedOrStaleCredential })
        }),
{
    credential_of_bearer_value(token);
    issued_token_decodes(claims.sub, HOUR, now, cfg.secret);
}

/// After a rotation the new token is what the old one was: presented before
/// it runs out, by a subject whose role passes the access gate, it reaches
/// the handler without another write.
pub proof fn renewed_token_is_accepted(
    cfg: GatewayView,
    store: StoreModel,
    authorization: Option<Seq<char>>,
    token: Seq<char>,
    claims: ClaimsView,
    now: u64,
    renewed: Option<Seq<char>>,
    later: u64,
)
    requires
        authorization == Some(bearer_value(token)),
        decoding(token, cfg.secret) == Ok::<ClaimsView, DecodeError>(claims),
        store.dom().contains(claims.sub),
        store[claims.sub].current_token == Some(token),
        due(claims.exp, now),
        issuing(claims.sub, HOUR, now, cfg.secret) is Ok,
        renewed == Some(bearer_value(issuing(claims.sub, HOUR, now, cfg.secret)->Ok_0)),
        later < now + HOUR,
        permitted(store[claims.sub].role, cfg.required_role),
    ensures
        ({
            let rotated = serve(cfg, store, authorization, now, true, true).store;
            let served = serve(cfg, rotated, renewed, later, true, true);
            &&& served.outcome == (ActionView::RunHandler {
                context: ContextView { subject: claims.sub, role: store[claims.sub].role },
                authorization: None,
            })
            &&& served.writes == 0
            &&& served.store == rotated
        }),
{
    credential_of_bearer_value(token);
    credential_of_bearer_value(issuing(claims.sub, HOUR, now, cfg.secret)->Ok_0);
    issued_token_decodes(claims.sub, HOUR, now, cfg.secret);
}

/// Two requests that find the same token run out may both rotate it. The
/// store then holds what the later write left: the token minted for the
/// earlier one is turned away like any stale token.
pub proof fn last_rotation_wins(
    cfg: GatewayView,
    store: StoreModel,
    authorization: Option<Seq<char>>,
    token: Seq<char>,
    claims: ClaimsView,
    first_time: u64,
    second_time: u64,
    first_renewed: Option<Seq<char>>,
)
    requires
        authorization == Some(bearer_value(token)),
        decoding(token, cfg.secret) == Ok::<ClaimsView, DecodeError>(claims),
        store.dom().contains(claims.sub),
        store[claims.sub].current_token == Some(token),
        due(claims.exp, first_time),
        due(claims.exp, second_time),
        first_time != second_time,
        issuing(claims.sub, HOUR, first_time, cfg.secret) is Ok,
        issuing(claims.sub, HOUR, second_time, cfg.secret) is Ok,
        first_renewed == Some(
            bearer_value(issuing(claims.sub, HOUR, first_time, cfg.secret)->Ok_0),
        ),
    ensures
        ({
            let first = serve(cfg, store, authorization, first_time, true, true);
            let second = serve(cfg, store, authorization, second_time, true, true);
            let kept = issuing(claims.sub, HOUR, second_time, cfg.secret)->Ok_0;
            let both = with_current_token(first.store, claims.sub, kept);
            &&& first.writes == 1
            &&& second.writes == 1
            &&& second.store == with_current_token(store, claims.sub, kept)
            &&& both[claims.sub].current_token == Some(kept)
            &&& authenticate(both, first_renewed, cfg.secret, true) == (ValidationView::Failed {
                error: AuthError::RevokedOrStaleCredential,
            })
        }),
{
    credential_of_bearer_value(token);
    credential_of_bearer_value(issuing(claims.sub, HOUR, first_time, cfg.secret)->Ok_0);
    issued_token_decodes(claims.sub, HOUR, first_time, cfg.secret);
    issued_token_decodes(claims.sub, HOUR, second_time, cfg.secret);
}

/// A store that does not answer lets nobody through: every request that
/// carries a token that decodes is turned away with 401, and nothing is
/// written.
pub proof fn silent_store_is_no_pass(
    cfg: GatewayView,
    store: StoreModel,
    authorization: Option<Seq<char>>,
    now: u64,
    writable: bool,
)
    ensures
        ({
            let served = serve(cfg, store, authorization, now, false, writable);
            &&& served.outcome matches ActionView::Reject { error, refusal, authorization: header }
            &&& is_authentication(error)
            &&& refusal.status == UNAUTHORIZED
            &&& header is None
            &&& served.writes == 0
            &&& served.store == store
        }),
{
}

/// Rotation is best effort. Where the store does not take the new token, or
/// none can be minted, the request goes on as if its token had not run out:
/// same outcome, no header, the store unchanged.
pub proof fn failed_rotation_changes_nothing(
    cfg: GatewayView,
    store: StoreModel,
    authorization: Option<Seq<char>>,
    token: Seq<char>,
    claims: ClaimsView,
    now: u64,
    writable: bool,
)
    requires
        authorization == Some(bearer_value(token)),
        decoding(token, cfg.secret) == Ok::<ClaimsView, DecodeError>(claims),
        store.dom().contains(claims.sub),
        store[claims.sub].current_token == Some(token),
        due(claims.exp, now),
        !writable || issuing(claims.sub, HOUR, now, cfg.secret) is Err,
    ensures
        ({
            let served = serve(cfg, store, authorization, now, true, writable);
            &&& served.store == store
            &&& response_header(served.outcome) is None
            &&& reached_handler(served.outcome) == permitted(
                store[claims.sub].role,
                cfg.required_role,
            )
            &&& (served.outcome matches ActionView::RunHandler { context, authorization: header }
                ==> context == (ContextView {
                subject: claims.sub,
                role: store[claims.sub].role,
            }))
        }),
{
    credential_of_bearer_value(token);
}

/// The handler runs for no request but one whose header is `Bearer `
/// followed by a token that decodes under the secret and is the current token
/// of its subject, whose role passes the access gate. The subject it is told
/// is the one the token claims.
pub proof fn handler_runs_only_when_authorized(
    cfg: GatewayView,
    store: StoreModel,
    authorization: Option<Seq<char>>,
    now: u64,
    reachable: bool,
    writable: bool,
)
    requires
        serve(cfg, store, authorization, now, reachable, writable).outcome is RunHandler,
    ensures
        ({
            let served = serve(cfg, store, authorization, now, reachable, writable);
            let token = bearer_credential(authorization);
            &&& reachable
            &&& token is Some
            &&& authorization == Some(bearer_value(token->Some_0))
            &&& decoding(token->Some_0, cfg.secret) matches Ok(claims)
            &&& store.dom().contains(claims.sub)
            &&& store[claims.sub].current_token == token
            &&& permitted(store[claims.sub].role, cfg.required_role)
            &&& served.outcome matches ActionView::RunHandler { context, authorization: header }
            &&& context == (ContextView { subject: claims.sub, role: store[claims.sub].role })
        }),
{
    let token = bearer_credential(authorization);
    if authorization is Some && token is Some {
        bearer_value_of_credential(authorization->Some_0, token->Some_0);
    }
}

/// The store is asked for a write only on behalf of a request that has passed
/// validation, and then only to replace a token that has run out; the write
/// names the subject of that token. A request that is cut short before
/// validation ends has changed nothing.
pub proof fn writes_follow_validation(
    cfg: GatewayView,
    store: StoreModel,
    authorization: Option<Seq<char>>,
    now: u64,
    reachable: bool,
    writable: bool,
)
    requires
        serve(cfg, store, authorization, now, reachable, writable).writes > 0,
    ensures
        authenticate(store, authorization, cfg.secret, reachable) matches ValidationView::Valid {
            session,
        } && due(session.claims.exp, now) && issuing(session.claims.sub, HOUR, now, cfg.secret)
            is Ok,
        step_spec(cfg, PhaseView::Idle, EventView::Request { authorization, now }).1
            is FindBySubject,
{
}

/// A store keyed by subject stays so under the writes of the gateway.
pub proof fn serving_keeps_the_store_keyed(
    cfg: GatewayView,
    store: StoreModel,
    authorization: Option<Seq<char>>,
    now: u64,
    reachable: bool,
    writable: bool,
)
    requires
        keyed_by_subject(store),
    ensures
        keyed_by_subject(serve(cfg, store, authorization, now, reachable, writable).store),
        serve(cfg, store, authorization, now, reachable, writable).store.dom() == store.dom(),
{
    let after = serve(cfg, store, authorization, now, reachable, writable).store;
    assert(after.dom() =~= store.dom());
}

} // verus!
