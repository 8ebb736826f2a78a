use backend::codec::{decode, issue, Claims, HOUR};
use backend::config::{resolve_secret, ConfigError, Posture, SigningSecret};
use backend::error::{AuthError, RoleDenial};
use backend::gate::{
    access_gate, admin_middleware, community_middleware, local_middleware, ngo_middleware, permits,
};
use backend::pipeline::{merge_middlewares, Action, Event, Gateway, Phase};
use backend::rotator::{needs_rotation, rotate_token_middleware, Rotation, RotationAction, RotationEvent};
use backend::store::{IdentityRecord, StoreLookup};
use backend::validator::{
    auth_middleware, AuthAction, AuthEvent, AuthenticatedContext, Session, Validation,
};

const NOW: u64 = 1_700_000_000;

fn secret() -> SigningSecret {
    SigningSecret::new(b"disaster".to_vec()).unwrap()
}

fn gateway(required_role: Option<&str>, denial: RoleDenial) -> Gateway {
    merge_middlewares(secret(), required_role.map(|r| r.to_string()), denial, 2_000)
}

fn record(subject: &str, token: Option<&str>, role: Option<&str>) -> IdentityRecord {
    IdentityRecord {
        subject: subject.to_string(),
        password_hash: String::new(),
        role: role.map(|r| r.to_string()),
        current_token: token.map(|t| t.to_string()),
    }
}

fn copy(r: &IdentityRecord) -> IdentityRecord {
    IdentityRecord {
        subject: r.subject.clone(),
        password_hash: r.password_hash.clone(),
        role: r.role.clone(),
        current_token: r.current_token.clone(),
    }
}

/// What one request came to against a store held in memory.
struct Served {
    outcome: Action,
    lookups: usize,
    writes: usize,
}

/// Runs the pipeline to its end, answering its actions from `store`.
fn serve(
    gateway: &Gateway,
    store: &mut Vec<IdentityRecord>,
    authorization: Option<&str>,
    now: u64,
    reachable: bool,
    writable: bool,
) -> Served {
    let mut lookups = 0;
    let mut writes = 0;
    let request = Event::Request { authorization: authorization.map(|h| h.to_string()), now };
    let (mut phase, mut action) = gateway.step(Phase::Idle, request);
    loop {
        let event = match &action {
            Action::FindBySubject { subject, within_ms } => {
                assert_eq!(*within_ms, gateway.store_timeout_ms);
                lookups += 1;
                if !reachable {
                    Event::Record(StoreLookup::Unavailable)
                } else {
                    match store.iter().find(|r| r.subject == *subject) {
                        Some(found) => Event::Record(StoreLookup::Found(copy(found))),
                        None => Event::Record(StoreLookup::NotFound),
                    }
                }
            }
            Action::UpdateCurrentToken { subject, token, within_ms } => {
                assert_eq!(*within_ms, gateway.store_timeout_ms);
                writes += 1;
                if writable {
                    for r in store.iter_mut() {
                        if r.subject == *subject {
                            r.current_token = Some(token.clone());
                        }
                    }
                }
                Event::Written(writable)
            }
            _ => break,
        };
        let next = gateway.step(phase, event);
        phase = next.0;
        action = next.1;
    }
    assert!(matches!(phase, Phase::Finished));
    Served { outcome: action, lookups, writes }
}

fn bearer(token: &str) -> String {
    format!("Bearer {}", token)
}

#[test]
fn an_unexpired_current_token_passes_without_a_rewrite() {
    let t1 = issue("a@b.com", HOUR, NOW, b"disaster").unwrap();
    let mut store = vec![record("a@b.com", Some(&t1), Some("ngo"))];
    let served = serve(&gateway(None, RoleDenial::Unauthorized), &mut store, Some(&bearer(&t1)), NOW, true, true);
    match served.outcome {
        Action::RunHandler { context, authorization } => {
            assert_eq!(context.subject, "a@b.com");
            assert_eq!(context.role, Some("ngo".to_string()));
            assert_eq!(authorization, None);
        }
        other => panic!("unexpected outcome {:?}", other),
    }
    assert_eq!(served.lookups, 1);
    assert_eq!(served.writes, 0);
    assert_eq!(store[0].current_token, Some(t1));
}

#[test]
fn a_token_that_was_never_issued_is_unauthorized() {
    let t1 = issue("a@b.com", HOUR, NOW, b"disaster").unwrap();
    let mut store = vec![record("a@b.com", Some(&t1), Some("ngo"))];
    let served = serve(&gateway(None, RoleDenial::Forbidden), &mut store, Some("Bearer T2"), NOW, true, true);
    match served.outcome {
        Action::Reject { error, refusal, authorization } => {
            assert_eq!(error, AuthError::MalformedCredential);
            assert_eq!(refusal.status, 401);
            assert_eq!(refusal.message, "Unauthorized: Invalid or missing token");
            assert_eq!(authorization, None);
        }
        other => panic!("unexpected outcome {:?}", other),
    }
    assert_eq!(served.lookups, 0);
    assert_eq!(served.writes, 0);
    assert_eq!(store[0].current_token, Some(t1));
}

#[test]
fn a_sound_token_that_is_not_current_is_unauthorized() {
    let t1 = issue("a@b.com", HOUR, NOW, b"disaster").unwrap();
    let t2 = issue("a@b.com", HOUR + 1, NOW, b"disaster").unwrap();
    let mut store = vec![record("a@b.com", Some(&t1), Some("ngo"))];
    let served = serve(&gateway(None, RoleDenial::Forbidden), &mut store, Some(&bearer(&t2)), NOW, true, true);
    match served.outcome {
        Action::Reject { error, refusal, authorization } => {
            assert_eq!(error, AuthError::RevokedOrStaleCredential);
            assert_eq!(refusal.status, 401);
            assert_eq!(refusal.message, "Unauthorized: Invalid or missing token");
            assert_eq!(authorization, None);
        }
        other => panic!("unexpected outcome {:?}", other),
    }
    assert_eq!(served.writes, 0);
}

#[test]
fn an_expired_current_token_is_rotated() {
    let t1 = issue("a@b.com", HOUR, NOW - 2 * HOUR, b"disaster").unwrap();
    let mut store = vec![record("a@b.com", Some(&t1), Some("ngo"))];
    let gateway = gateway(None, RoleDenial::Unauthorized);
    let served = serve(&gateway, &mut store, Some(&bearer(&t1)), NOW, true, true);
    let t3 = issue("a@b.com", HOUR, NOW, b"disaster").unwrap();
    match served.outcome {
        Action::RunHandler { context, authorization } => {
            assert_eq!(context.subject, "a@b.com");
            assert_eq!(authorization, Some(bearer(&t3)));
        }
        other => panic!("unexpected outcome {:?}", other),
    }
    assert_eq!(served.lookups, 1);
    assert_eq!(served.writes, 1);
    assert_ne!(t3, t1);
    assert_eq!(store[0].current_token, Some(t3.clone()));
    assert_eq!(decode(&t3, b"disaster").unwrap().exp as u64, NOW + 3_600);

    // The old token is turned away from now on, the new one is accepted.
    let again = serve(&gateway, &mut store, Some(&bearer(&t1)), NOW + 1, true, true);
    match again.outcome {
        Action::Reject { error, refusal, .. } => {
            assert_eq!(error, AuthError::RevokedOrStaleCredential);
            assert_eq!(refusal.status, 401);
        }
        other => panic!("unexpected outcome {:?}", other),
    }
    assert_eq!(again.writes, 0);
    let renewed = serve(&gateway, &mut store, Some(&bearer(&t3)), NOW + 1, true, true);
    assert!(matches!(renewed.outcome, Action::RunHandler { authorization: None, .. }));
    assert_eq!(renewed.writes, 0);
}

#[test]
fn a_token_that_expires_this_second_is_rotated() {
    let t1 = issue("a@b.com", HOUR, NOW - HOUR, b"disaster").unwrap();
    let mut store = vec![record("a@b.com", Some(&t1), None)];
    let served = serve(&gateway(None, RoleDenial::Unauthorized), &mut store, Some(&bearer(&t1)), NOW, true, true);
    assert_eq!(served.writes, 1);
    let before = serve(&gateway(None, RoleDenial::Unauthorized), &mut vec![record("a@b.com", Some(&t1), None)], Some(&bearer(&t1)), NOW - 1, true, true);
    assert_eq!(before.writes, 0);
}

#[test]
fn a_failed_write_abandons_the_rotation_but_not_the_request() {
    let t1 = issue("a@b.com", HOUR, NOW - 2 * HOUR, b"disaster").unwrap();
    let mut store = vec![record("a@b.com", Some(&t1), Some("ngo"))];
    let served = serve(&gateway(Some("ngo"), RoleDenial::Forbidden), &mut store, Some(&bearer(&t1)), NOW, true, false);
    match served.outcome {
        Action::RunHandler { context, authorization } => {
            assert_eq!(context.subject, "a@b.com");
            assert_eq!(authorization, None);
        }
        other => panic!("unexpected outcome {:?}", other),
    }
    assert_eq!(served.writes, 1);
    assert_eq!(store[0].current_token, Some(t1));
}

#[test]
fn a_rotation_that_cannot_mint_passes_through() {
    let t1 = issue("a@b.com", HOUR, NOW, b"disaster").unwrap();
    let mut store = vec![record("a@b.com", Some(&t1), None)];
    let served = serve(&gateway(None, RoleDenial::Forbidden), &mut store, Some(&bearer(&t1)), u64::MAX, true, true);
    assert!(matches!(served.outcome, Action::RunHandler { authorization: None, .. }));
    assert_eq!(served.writes, 0);
}

#[test]
fn repeating_an_unexpired_request_writes_nothing() {
    let t1 = issue("a@b.com", HOUR, NOW, b"disaster").unwrap();
    let mut store = vec![record("a@b.com", Some(&t1), Some("local"))];
    let gateway = gateway(Some("local"), RoleDenial::Forbidden);
    let first = serve(&gateway, &mut store, Some(&bearer(&t1)), NOW, true, true);
    let second = serve(&gateway, &mut store, Some(&bearer(&t1)), NOW + 10, true, true);
    assert!(matches!(first.outcome, Action::RunHandler { authorization: None, .. }));
    assert!(matches!(second.outcome, Action::RunHandler { authorization: None, .. }));
    assert_eq!(first.writes + second.writes, 0);
    assert_eq!(store[0].current_token, Some(t1));
}

#[test]
fn a_request_without_credential_is_unauthorized() {
    let mut store = vec![record("a@b.com", Some("T1"), None)];
    for header in [None, Some("Basic abc"), Some("bearer T1")] {
        let served = serve(&gateway(None, RoleDenial::Forbidden), &mut store, header, NOW, true, true);
        match served.outcome {
            Action::Reject { error, refusal, authorization } => {
                assert_eq!(error, AuthError::MissingCredential);
                assert_eq!(refusal.status, 401);
                assert_eq!(refusal.message, "Unauthorized: Invalid or missing token");
                assert_eq!(authorization, None);
            }
            other => panic!("unexpected outcome {:?}", other),
        }
        assert_eq!(served.lookups, 0);
    }
}

#[test]
fn an_unknown_subject_is_unauthorized() {
    let t1 = issue("a@b.com", HOUR, NOW, b"disaster").unwrap();
    let mut store = vec![record("c@d.com", Some(&t1), None)];
    let served = serve(&gateway(None, RoleDenial::Forbidden), &mut store, Some(&bearer(&t1)), NOW, true, true);
    match served.outcome {
        Action::Reject { error, refusal, .. } => {
            assert_eq!(error, AuthError::IdentityNotFound);
            assert_eq!(refusal.status, 401);
            assert_eq!(refusal.message, "Unauthorized: Invalid or missing token");
        }
        other => panic!("unexpected outcome {:?}", other),
    }
}

#[test]
fn a_store_that_does_not_answer_is_no_pass() {
    let t1 = issue("a@b.com", HOUR, NOW, b"disaster").unwrap();
    let mut store = vec![record("a@b.com", Some(&t1), None)];
    let served = serve(&gateway(None, RoleDenial::Forbidden), &mut store, Some(&bearer(&t1)), NOW, false, true);
    match served.outcome {
        Action::Reject { error, refusal, .. } => {
            assert_eq!(error, AuthError::StoreUnavailable);
            assert_eq!(refusal.status, 401);
            assert_eq!(refusal.message, "Unauthorized: Invalid or missing token");
        }
        other => panic!("unexpected outcome {:?}", other),
    }
    assert_eq!(served.writes, 0);
}

#[test]
fn a_record_without_current_token_matches_nothing() {
    let t1 = issue("a@b.com", HOUR, NOW, b"disaster").unwrap();
    let mut store = vec![record("a@b.com", None, None)];
    let served = serve(&gateway(None, RoleDenial::Forbidden), &mut store, Some(&bearer(&t1)), NOW, true, true);
    assert!(matches!(
        served.outcome,
        Action::Reject { error: AuthError::RevokedOrStaleCredential, .. }
    ));
}

#[test]
fn local_is_denied_ngo_routes_and_permitted_local_routes() {
    let t1 = issue("a@b.com", HOUR, NOW, b"disaster").unwrap();
    let mut store = vec![record("a@b.com", Some(&t1), Some("local"))];
    let denied = serve(&gateway(Some("ngo"), RoleDenial::Forbidden), &mut store, Some(&bearer(&t1)), NOW, true, true);
    match denied.outcome {
        Action::Reject { error, refusal, authorization } => {
            assert_eq!(error, AuthError::InsufficientRole);
            assert_eq!(refusal.status, 403);
            assert_eq!(refusal.message, "Unauthorized: Only NGO role is allowed");
            assert_eq!(authorization, None);
        }
        other => panic!("unexpected outcome {:?}", other),
    }
    let legacy = serve(&gateway(Some("ngo"), RoleDenial::Unauthorized), &mut store, Some(&bearer(&t1)), NOW, true, true);
    match legacy.outcome {
        Action::Reject { error, refusal, .. } => {
            assert_eq!(error, AuthError::InsufficientRole);
            assert_eq!(refusal.status, 401);
        }
        other => panic!("unexpected outcome {:?}", other),
    }
    let permitted = serve(&gateway(Some("local"), RoleDenial::Forbidden), &mut store, Some(&bearer(&t1)), NOW, true, true);
    assert!(matches!(permitted.outcome, Action::RunHandler { .. }));
}

#[test]
fn a_subject_without_role_is_denied_by_default() {
    let t1 = issue("a@b.com", HOUR, NOW, b"disaster").unwrap();
    let mut store = vec![record("a@b.com", Some(&t1), None)];
    let served = serve(&gateway(Some("admin"), RoleDenial::Forbidden), &mut store, Some(&bearer(&t1)), NOW, true, true);
    match served.outcome {
        Action::Reject { error, refusal, .. } => {
            assert_eq!(error, AuthError::InsufficientRole);
            assert_eq!(refusal.message, "Unauthorized: Only admin role is allowed");
        }
        other => panic!("unexpected outcome {:?}", other),
    }
}

#[test]
fn a_denied_request_still_carries_its_renewed_token() {
    let t1 = issue("a@b.com", HOUR, NOW - 2 * HOUR, b"disaster").unwrap();
    let mut store = vec![record("a@b.com", Some(&t1), Some("local"))];
    let served = serve(&gateway(Some("ngo"), RoleDenial::Forbidden), &mut store, Some(&bearer(&t1)), NOW, true, true);
    let t3 = issue("a@b.com", HOUR, NOW, b"disaster").unwrap();
    match served.outcome {
        Action::Reject { error, authorization, .. } => {
            assert_eq!(error, AuthError::InsufficientRole);
            assert_eq!(authorization, Some(bearer(&t3)));
        }
        other => panic!("unexpected outcome {:?}", other),
    }
    assert_eq!(store[0].current_token, Some(t3));
}

#[test]
fn events_out_of_place_change_nothing() {
    let gateway = gateway(None, RoleDenial::Forbidden);
    let (phase, action) = gateway.step(Phase::Idle, Event::Written(true));
    assert!(matches!(phase, Phase::Idle));
    assert!(matches!(action, Action::Nothing));
    let (phase, action) = gateway.step(Phase::Idle, Event::Record(StoreLookup::NotFound));
    assert!(matches!(phase, Phase::Idle));
    assert!(matches!(action, Action::Nothing));
    let (phase, action) = gateway.step(Phase::Finished, Event::Request { authorization: None, now: NOW });
    assert!(matches!(phase, Phase::Finished));
    assert!(matches!(action, Action::Nothing));
}

#[test]
fn the_validator_walks_through_its_states() {
    let t1 = issue("a@b.com", HOUR, NOW, b"disaster").unwrap();
    let start = Validation::NoCredential;
    let decoding = start.present(Some(&bearer(&t1)));
    assert!(matches!(&decoding, Validation::Decoding { token } if *token == t1));
    let decoded = decoding.decode(b"disaster");
    assert!(matches!(&decoded, Validation::Decoded { claims, .. } if claims.sub == "a@b.com"));
    let matched = decoded.compare(StoreLookup::Found(record("a@b.com", Some(&t1), Some("ngo"))));
    assert!(matches!(&matched, Validation::MatchedAgainstStore { .. }));
    let valid = matched.conclude();
    match valid {
        Validation::Valid { session } => {
            assert_eq!(session.token, t1);
            assert_eq!(session.claims.sub, "a@b.com");
            assert_eq!(session.role, Some("ngo".to_string()));
        }
        other => panic!("unexpected state {:?}", other),
    }
}

#[test]
fn a_failed_validation_stays_failed() {
    let failed = Validation::NoCredential.present(None);
    assert!(matches!(failed, Validation::Failed { error: AuthError::MissingCredential }));
    let still = failed
        .decode(b"disaster")
        .compare(StoreLookup::NotFound)
        .conclude()
        .present(Some("Bearer x"));
    assert!(matches!(still, Validation::Failed { error: AuthError::MissingCredential }));
}

#[test]
fn auth_middleware_asks_for_the_subject_then_proceeds() {
    let t1 = issue("a@b.com", HOUR, NOW, b"disaster").unwrap();
    let (state, action) = auth_middleware(
        Validation::NoCredential,
        AuthEvent::Request { authorization: Some(bearer(&t1)) },
        b"disaster",
    );
    assert!(matches!(&action, AuthAction::FindBySubject { subject } if subject == "a@b.com"));
    let (state, action) = auth_middleware(
        state,
        AuthEvent::Record(StoreLookup::Found(record("a@b.com", Some(&t1), None))),
        b"disaster",
    );
    assert!(matches!(state, Validation::Valid { .. }));
    assert!(matches!(&action, AuthAction::Proceed { context } if context.subject == "a@b.com"));
    let (_, action) = auth_middleware(
        Validation::NoCredential,
        AuthEvent::Record(StoreLookup::NotFound),
        b"disaster",
    );
    assert!(matches!(action, AuthAction::Nothing));
}

#[test]
fn rotation_is_due_at_and_after_the_expiry() {
    assert!(!needs_rotation(100, 99));
    assert!(needs_rotation(100, 100));
    assert!(needs_rotation(100, 101));
}

#[test]
fn rotate_token_middleware_mints_for_one_hour() {
    let session = Session {
        token: "old".to_string(),
        claims: Claims { sub: "a@b.com".to_string(), exp: 10 },
        role: Some("ngo".to_string()),
    };
    let (state, action) =
        rotate_token_middleware(Rotation::Trusted { session }, RotationEvent::Examine { now: NOW }, b"disaster");
    let expected = issue("a@b.com", HOUR, NOW, b"disaster").unwrap();
    match &action {
        RotationAction::UpdateCurrentToken { subject, token } => {
            assert_eq!(subject, "a@b.com");
            assert_eq!(*token, expected);
        }
        other => panic!("unexpected action {:?}", other),
    }
    let (state, action) = rotate_token_middleware(state, RotationEvent::Written(true), b"disaster");
    assert!(matches!(action, RotationAction::Continue));
    match state {
        Rotation::Settled { session, renewed } => {
            assert_eq!(renewed, Some(expected.clone()));
            assert_eq!(session.token, expected);
            assert_eq!(session.claims.exp as u64, NOW + 3_600);
            assert_eq!(session.claims.sub, "a@b.com");
            assert_eq!(session.role, Some("ngo".to_string()));
        }
        other => panic!("unexpected state {:?}", other),
    }
}

#[test]
fn the_named_gates_ask_for_their_roles() {
    let context = |role: Option<&str>| AuthenticatedContext {
        subject: "a@b.com".to_string(),
        role: role.map(|r| r.to_string()),
    };
    assert!(admin_middleware(&context(Some("admin")), RoleDenial::Forbidden).is_ok());
    assert!(ngo_middleware(&context(Some("ngo")), RoleDenial::Forbidden).is_ok());
    assert!(local_middleware(&context(Some("local")), RoleDenial::Forbidden).is_ok());
    assert!(community_middleware(&context(Some("community")), RoleDenial::Forbidden).is_ok());

    let denied = admin_middleware(&context(Some("ngo")), RoleDenial::Unauthorized).unwrap_err();
    assert_eq!(denied.status, 401);
    assert_eq!(denied.message, "Unauthorized: Only admin role is allowed");
    let denied = ngo_middleware(&context(Some("local")), RoleDenial::Forbidden).unwrap_err();
    assert_eq!(denied.status, 403);
    assert_eq!(denied.message, "Unauthorized: Only NGO role is allowed");
    let denied = local_middleware(&context(None), RoleDenial::Unauthorized).unwrap_err();
    assert_eq!(denied.message, "Unauthorized: Only Local role is allowed");
    let denied = community_middleware(&context(Some("Community")), RoleDenial::Unauthorized).unwrap_err();
    assert_eq!(denied.message, "Unauthorized: Only community role is allowed");
    let denied = access_gate(&context(Some("admin")), "auditor", RoleDenial::Forbidden).unwrap_err();
    assert_eq!(denied.message, "Unauthorized: Only auditor role is allowed");
}

#[test]
fn roles_compare_by_exact_text() {
    assert!(permits(&Some("local".to_string()), Some("local")));
    assert!(!permits(&Some("local".to_string()), Some("ngo")));
    assert!(!permits(&Some("Local".to_string()), Some("local")));
    assert!(!permits(&Some("local ".to_string()), Some("local")));
    assert!(!permits(&None, Some("local")));
    assert!(permits(&None, None));
    assert!(permits(&Some("local".to_string()), None));
}

#[test]
fn errors_have_one_public_face_and_many_details() {
    let authentication = [
        AuthError::MissingCredential,
        AuthError::MalformedCredential,
        AuthError::RevokedOrStaleCredential,
        AuthError::IdentityNotFound,
        AuthError::StoreUnavailable,
    ];
    let mut details = Vec::new();
    for error in authentication {
        assert_eq!(error.status(RoleDenial::Forbidden), 401);
        assert_eq!(error.status(RoleDenial::Unauthorized), 401);
        assert_eq!(error.public_message(Some("ngo")), "Unauthorized: Invalid or missing token");
        assert_eq!(error.public_message(None), "Unauthorized: Invalid or missing token");
        assert!(!details.contains(&error.detail()));
        details.push(error.detail());
    }
    assert_eq!(AuthError::InsufficientRole.status(RoleDenial::Forbidden), 403);
    assert_eq!(AuthError::InsufficientRole.status(RoleDenial::Unauthorized), 401);
    assert!(!details.contains(&AuthError::InsufficientRole.detail()));
}

#[test]
fn production_refuses_a_missing_an_empty_and_the_default_secret() {
    assert_eq!(resolve_secret(None, Posture::Production).err(), Some(ConfigError::MissingSecret));
    assert_eq!(resolve_secret(Some(""), Posture::Production).err(), Some(ConfigError::EmptySecret));
    assert_eq!(
        resolve_secret(Some("disaster"), Posture::Production).err(),
        Some(ConfigError::DefaultSecret)
    );
    let secret = resolve_secret(Some("s3cr\u{00e9}t"), Posture::Production).unwrap();
    assert_eq!(secret.as_bytes(), "s3cr\u{00e9}t".as_bytes());
}

#[test]
fn development_falls_back_to_the_default_secret() {
    assert_eq!(resolve_secret(None, Posture::Development).unwrap().as_bytes(), b"disaster");
    assert_eq!(resolve_secret(Some("disaster"), Posture::Development).unwrap().as_bytes(), b"disaster");
    assert_eq!(resolve_secret(Some(""), Posture::Development).err(), Some(ConfigError::EmptySecret));
    assert!(SigningSecret::new(Vec::new()).is_none());
}

#[test]
fn merge_middlewares_keeps_what_it_is_given() {
    let gateway = merge_middlewares(secret(), Some("ngo".to_string()), RoleDenial::Forbidden, 750);
    assert_eq!(gateway.secret.as_bytes(), b"disaster");
    assert_eq!(gateway.required_role, Some("ngo".to_string()));
    assert_eq!(gateway.denial, RoleDenial::Forbidden);
    assert_eq!(gateway.store_timeout_ms, 750);
}

#[test]
fn of_two_rotations_the_later_write_wins() {
    let t1 = issue("a@b.com", HOUR, NOW - 2 * HOUR, b"disaster").unwrap();
    let gateway = gateway(None, RoleDenial::Unauthorized);
    // Both requests saw the same stale token on record.
    let mut seen_by_first = vec![record("a@b.com", Some(&t1), None)];
    let mut seen_by_second = vec![record("a@b.com", Some(&t1), None)];
    let first = serve(&gateway, &mut seen_by_first, Some(&bearer(&t1)), NOW, true, true);
    let second = serve(&gateway, &mut seen_by_second, Some(&bearer(&t1)), NOW + 1, true, true);
    assert_eq!((first.writes, second.writes), (1, 1));
    let minted_first = seen_by_first[0].current_token.clone().unwrap();
    let minted_second = seen_by_second[0].current_token.clone().unwrap();
    assert_ne!(minted_first, minted_second);

    // The store ends with what the later write left.
    let mut store = vec![record("a@b.com", Some(&minted_second), None)];
    let orphaned = serve(&gateway, &mut store, Some(&bearer(&minted_first)), NOW + 2, true, true);
    assert!(matches!(
        orphaned.outcome,
        Action::Reject { error: AuthError::RevokedOrStaleCredential, .. }
    ));
    let kept = serve(&gateway, &mut store, Some(&bearer(&minted_second)), NOW + 2, true, true);
    assert!(matches!(kept.outcome, Action::RunHandler { authorization: None, .. }));
}

#[test]
fn a_repeated_scheme_is_unauthorized() {
    let t1 = issue("a@b.com", HOUR, NOW, b"disaster").unwrap();
    let mut store = vec![record("a@b.com", Some(&t1), Some("ngo"))];
    let header = format!("Bearer Bearer {}", t1);
    let served = serve(&gateway(None, RoleDenial::Forbidden), &mut store, Some(&header), NOW, true, true);
    match served.outcome {
        Action::Reject { error, refusal, authorization } => {
            assert_eq!(error, AuthError::MalformedCredential);
            assert_eq!(refusal.status, 401);
            assert_eq!(refusal.message, "Unauthorized: Invalid or missing token");
            assert_eq!(authorization, None);
        }
        other => panic!("unexpected outcome {:?}", other),
    }
    assert_eq!(served.lookups, 0);
    assert_eq!(served.writes, 0);
    assert_eq!(store[0].current_token, Some(t1));
}

#[test]
fn the_credential_is_compared_whole() {
    let t1 = issue("a@b.com", HOUR, NOW, b"disaster").unwrap();
    // Even a record that holds the longer text does not let it through: it
    // does not decode.
    let longer = format!("Bearer {}", t1);
    let mut store = vec![record("a@b.com", Some(&longer), None)];
    let header = format!("Bearer {}", longer);
    let served = serve(&gateway(None, RoleDenial::Forbidden), &mut store, Some(&header), NOW, true, true);
    assert!(matches!(served.outcome, Action::Reject { error: AuthError::MalformedCredential, .. }));
    // And the token itself is not that record's current token.
    let served = serve(&gateway(None, RoleDenial::Forbidden), &mut store, Some(&longer), NOW, true, true);
    assert!(matches!(
        served.outcome,
        Action::Reject { error: AuthError::RevokedOrStaleCredential, .. }
    ));
}
