use headmaster::auth_key::{
    ensure_auth_key, existing_auth_key, expiration_secs, is_key_expired, now_epoch_secs,
    rotate_stale_auth_key, AuthKeyAction, AuthKeyKnown, AuthKeyRequest, AuthKeyStatus, PreAuthKey,
    RotateAction, RotateKnown,
};
use headmaster::error::{Error, KubeError, Status, StatusCode};
use headmaster::names::ProxyNames;
use headmaster::objects::{ObjectMeta, Secret};
use headmaster::resources::config_secret;
use headmaster::step::{Notice, Step};
use headmaster::textmap::TextMap;

const NOW: i64 = 1_800_000_000;

fn not_found() -> KubeError {
    KubeError { api_code: Some(404), text: "not found".to_string() }
}

fn server_error() -> KubeError {
    KubeError { api_code: Some(500), text: "server error".to_string() }
}

fn status(code: StatusCode) -> Status {
    Status { code, message: "status".to_string() }
}

fn request(user: Option<&str>, auto_tag: Option<&str>, ephemeral: bool) -> AuthKeyRequest {
    AuthKeyRequest {
        user: user.map(|u| u.to_string()),
        managed_key_tags: vec!["tag:server".to_string()],
        auto_tag: auto_tag.map(|t| t.to_string()),
        expiry_secs: 600,
        reusable: false,
        ephemeral,
    }
}

fn secret_with(key: &str, value: &[u8]) -> Secret {
    Secret { data: Some(TextMap::with(key, value.to_vec())), ..Default::default() }
}

fn existing_secret() -> Secret {
    secret_with("key", b"existing-auth-key")
}

fn registered_state() -> Secret {
    secret_with("device_id", b"1")
}

/// A config Secret that was made at a time.
fn config_made_at(created: Option<i64>) -> Secret {
    Secret {
        metadata: ObjectMeta { creation_timestamp: created, ..Default::default() },
        data: Some(TextMap::with("key", b"k".to_vec())),
    }
}

/// Answers that lead up to the creation of a key.
fn no_key_yet() -> AuthKeyKnown {
    let mut known = AuthKeyKnown::nothing();
    known.config = Some(Err(not_found()));
    known.clock = Some(NOW);
    known
}

fn created(known: &mut AuthKeyKnown) {
    known.created = Some(Ok(Some(PreAuthKey { id: 7, key: "minted".to_string() })));
}

fn warning_of<A>(step: &Step<A>) -> Option<(&'static str, &str)> {
    match step.notices.first() {
        Some(Notice::Warning(w)) => Some((w.reason, w.message.as_str())),
        _ => None,
    }
}

#[test]
fn pre_auth_key_deleted_when_k8s_secret_save_fails() {
    let req = request(None, None, false);
    let mut known = no_key_yet();
    created(&mut known);
    assert!(matches!(
        ensure_auth_key(&known, &req).action,
        AuthKeyAction::SaveKey { ref key } if key == "minted"
    ));
    known.saved = Some(Err(Error::Kube(server_error())));
    assert!(
        matches!(ensure_auth_key(&known, &req).action, AuthKeyAction::RevokeKey { id: 7 }),
        "pre-auth key must be deleted from headscale when K8s secret save fails"
    );
    known.revoked = Some(Err(status(StatusCode::Other)));
    assert!(
        matches!(
            ensure_auth_key(&known, &req).action,
            AuthKeyAction::Done(Err(Error::Kube(ref e))) if *e == server_error()
        ),
        "must propagate the K8s save error"
    );
}

#[test]
fn pre_auth_key_retained_when_k8s_secret_save_succeeds() {
    let req = request(None, None, false);
    let mut known = no_key_yet();
    created(&mut known);
    known.saved = Some(Ok(()));
    assert!(
        matches!(
            ensure_auth_key(&known, &req).action,
            AuthKeyAction::Done(Ok(AuthKeyStatus::Ready))
        ),
        "pre-auth key must be kept in headscale when K8s secret save succeeds"
    );
}

#[test]
fn ensure_auth_key_skips_headscale_when_secret_already_exists() {
    let mut known = AuthKeyKnown::nothing();
    let req = request(Some("alice"), None, false);
    assert!(matches!(ensure_auth_key(&known, &req).action, AuthKeyAction::ReadConfig));
    known.config = Some(Ok(existing_secret()));
    assert!(
        matches!(
            ensure_auth_key(&known, &req).action,
            AuthKeyAction::Done(Ok(AuthKeyStatus::Ready))
        ),
        "headscale must not be called when the auth-key secret already exists"
    );
}

#[test]
fn existing_auth_key_propagates_non_404_error() {
    assert!(
        existing_auth_key(&Err(server_error())).is_err(),
        "non-404 GET error must propagate"
    );
    assert_eq!(existing_auth_key(&Err(not_found())), Ok(None));
}

#[test]
fn existing_auth_key_returns_key_when_secret_exists() {
    let key = existing_auth_key(&Ok(existing_secret())).unwrap();
    assert_eq!(key.as_deref(), Some("existing-auth-key"));
    assert_eq!(existing_auth_key(&Ok(secret_with("key", b""))), Ok(None));
    assert_eq!(existing_auth_key(&Ok(secret_with("key", b"\xff"))), Ok(None));
    assert_eq!(existing_auth_key(&Ok(Secret::default())), Ok(None));
}

#[test]
fn auto_tag_appended_to_acl_tags() {
    let req = request(Some("alice"), Some("tag:hm-default-test-ingress"), false);
    let mut known = no_key_yet();
    assert!(matches!(
        ensure_auth_key(&known, &req).action,
        AuthKeyAction::ListUsers { ref name } if name == "alice"
    ));
    known.users = Some(Ok(vec![1, 2]));
    match ensure_auth_key(&known, &req).action {
        AuthKeyAction::CreateKey { user, acl_tags, expiration_secs, reusable, ephemeral } => {
            assert_eq!(
                acl_tags,
                vec!["tag:server", "tag:hm-default-test-ingress"],
                "auto-tag must be appended after managed-key-tags"
            );
            assert_eq!(user, 1);
            assert_eq!(expiration_secs, NOW + 600);
            assert!(!reusable && !ephemeral);
        }
        other => panic!("{other:?}"),
    }
}

#[test]
fn ephemeral_flag_reaches_headscale() {
    let req = request(None, None, true);
    match ensure_auth_key(&no_key_yet(), &req).action {
        AuthKeyAction::CreateKey { ephemeral, user, .. } => {
            assert!(
                ephemeral,
                "ephemeral=true must be forwarded to CreatePreAuthKey"
            );
            assert_eq!(user, 0);
        }
        other => panic!("{other:?}"),
    }
}

#[test]
fn no_auto_tag_when_none() {
    match ensure_auth_key(&no_key_yet(), &request(None, None, false)).action {
        AuthKeyAction::CreateKey { acl_tags, .. } => assert_eq!(acl_tags, vec!["tag:server"]),
        other => panic!("{other:?}"),
    }
}

#[test]
fn missing_user_is_waited_for() {
    let req = request(Some("bob"), None, false);
    let mut known = no_key_yet();
    known.users = Some(Ok(vec![]));
    let step = ensure_auth_key(&known, &req);
    assert!(matches!(step.action, AuthKeyAction::Done(Ok(AuthKeyStatus::WaitingForUser))));
    assert_eq!(
        warning_of(&step),
        Some((
            "UserNotFound",
            "headscale user 'bob' does not exist; create it in headscale before this proxy can \
             be provisioned"
        ))
    );
    known.users = Some(Err(status(StatusCode::Other)));
    assert!(matches!(
        ensure_auth_key(&known, &req).action,
        AuthKeyAction::Done(Err(Error::HeadscaleApi(_)))
    ));
}

#[test]
fn failures_to_make_a_key_are_reported() {
    let req = request(None, None, false);
    let mut known = AuthKeyKnown::nothing();
    known.config = Some(Err(server_error()));
    assert!(matches!(
        ensure_auth_key(&known, &req).action,
        AuthKeyAction::Done(Err(Error::Kube(_)))
    ));
    known.config = Some(Err(not_found()));
    assert!(matches!(ensure_auth_key(&known, &req).action, AuthKeyAction::ReadClock));
    known.clock = Some(NOW);
    known.created = Some(Err(status(StatusCode::Other)));
    assert!(matches!(
        ensure_auth_key(&known, &req).action,
        AuthKeyAction::Done(Err(Error::HeadscaleApi(_)))
    ));
    known.created = Some(Ok(None));
    match ensure_auth_key(&known, &req).action {
        AuthKeyAction::Done(Err(Error::HeadscaleApi(s))) => {
            assert_eq!(s.code, StatusCode::Internal);
            assert_eq!(s.message, "CreatePreAuthKey returned no key");
        }
        other => panic!("{other:?}"),
    }
}

fn rotate(known: &RotateKnown) -> Step<RotateAction> {
    rotate_stale_auth_key(known, 600, "proxy-authkey-x")
}

#[test]
fn rotate_keeps_secrets_while_registration_is_healthy() {
    let mut known = RotateKnown::nothing();
    assert!(matches!(rotate(&known).action, RotateAction::ReadState));
    known.state = Some(Ok(registered_state()));
    assert!(matches!(rotate(&known).action, RotateAction::ReadClock));
    known.clock = Some(NOW);
    assert!(matches!(rotate(&known).action, RotateAction::GetNode { node_id: 1 }));
    for expiry in [None, Some(0), Some(-5), Some(NOW), Some(NOW + 1)] {
        known.node = Some(Ok(expiry));
        assert!(
            matches!(rotate(&known).action, RotateAction::Done(Ok(()))),
            "healthy registration must not delete anything"
        );
    }
}

#[test]
fn rotate_resets_both_secrets_when_node_is_gone() {
    let mut known = RotateKnown::nothing();
    known.state = Some(Ok(registered_state()));
    known.clock = Some(NOW);
    known.node = Some(Err(status(StatusCode::NotFound)));
    let step = rotate(&known);
    assert!(matches!(step.action, RotateAction::DeleteConfigSecret));
    assert_eq!(
        warning_of(&step),
        Some((
            "ProxyRegistrationLost",
            "headscale no longer accepts node 1; rotating the auth key and resetting proxy \
             state so it can re-register"
        ))
    );
    known.config_deleted = Some(Ok(()));
    let step = rotate(&known);
    assert!(matches!(step.action, RotateAction::DeleteStateSecret));
    assert!(step.notices.is_empty());
    known.state_deleted = Some(Ok(()));
    assert!(matches!(rotate(&known).action, RotateAction::Done(Ok(()))));
}

#[test]
fn rotate_resets_both_secrets_when_node_is_expired() {
    let mut known = RotateKnown::nothing();
    known.state = Some(Ok(registered_state()));
    known.clock = Some(NOW);
    known.node = Some(Ok(Some(1)));
    assert!(matches!(rotate(&known).action, RotateAction::DeleteConfigSecret));
    known.config_deleted = Some(Ok(()));
    assert!(
        matches!(rotate(&known).action, RotateAction::DeleteStateSecret),
        "expired node must rotate like a deleted one"
    );
}

#[test]
fn rotate_drops_config_secret_when_key_expired_before_first_join() {
    let mut known = RotateKnown::nothing();
    known.state = Some(Err(not_found()));
    assert!(matches!(rotate(&known).action, RotateAction::ReadConfig));
    known.config = Some(Ok(config_made_at(Some(1_577_836_800))));
    assert!(matches!(rotate(&known).action, RotateAction::ReadClock));
    known.clock = Some(NOW);
    let step = rotate(&known);
    assert!(
        matches!(step.action, RotateAction::DeleteConfigSecret),
        "expired never-used key must be dropped"
    );
    assert_eq!(
        warning_of(&step),
        Some((
            "AuthKeyExpired",
            "auth key in Secret 'proxy-authkey-x' expired before the proxy ever registered; \
             rotating it"
        ))
    );
    known.config_deleted = Some(Ok(()));
    assert!(
        matches!(rotate(&known).action, RotateAction::Done(Ok(()))),
        "state Secret must be left alone when nothing registered"
    );
}

#[test]
fn rotate_leaves_fresh_unused_key_alone() {
    let mut known = RotateKnown::nothing();
    known.state = Some(Err(not_found()));
    known.config = Some(Ok(config_made_at(Some(4_000_000_000))));
    known.clock = Some(NOW);
    assert!(
        matches!(rotate(&known).action, RotateAction::Done(Ok(()))),
        "a key still inside its expiry window must not be rotated"
    );
    known.config = Some(Ok(config_made_at(Some(NOW - 600))));
    assert!(matches!(rotate(&known).action, RotateAction::Done(Ok(()))));
    known.config = Some(Ok(config_made_at(Some(NOW - 601))));
    assert!(matches!(rotate(&known).action, RotateAction::DeleteConfigSecret));
    known.config = Some(Ok(config_made_at(None)));
    assert!(matches!(rotate(&known).action, RotateAction::Done(Ok(()))));
    known.config = Some(Err(not_found()));
    assert!(matches!(rotate(&known).action, RotateAction::Done(Ok(()))));
}

#[test]
fn rotate_reports_failures() {
    let mut known = RotateKnown::nothing();
    known.state = Some(Err(server_error()));
    assert!(matches!(rotate(&known).action, RotateAction::Done(Err(Error::Kube(_)))));
    known.state = Some(Ok(secret_with("device_id", b"not a number")));
    known.config = Some(Err(server_error()));
    assert!(matches!(rotate(&known).action, RotateAction::Done(Err(Error::Kube(_)))));
    known.state = Some(Ok(registered_state()));
    known.clock = Some(NOW);
    known.node = Some(Err(status(StatusCode::Other)));
    assert!(matches!(rotate(&known).action, RotateAction::Done(Err(Error::HeadscaleApi(_)))));
    known.node = Some(Err(status(StatusCode::NotFound)));
    known.config_deleted = Some(Err(Error::MissingNamespace));
    assert!(matches!(
        rotate(&known).action,
        RotateAction::Done(Err(Error::MissingNamespace))
    ));
}

#[test]
fn a_dropped_key_is_replaced() {
    // What is read after the config Secret was dropped leads to a new key, and
    // what is saved then is found the next time.
    let req = request(None, None, false);
    assert!(matches!(
        ensure_auth_key(&no_key_yet(), &req).action,
        AuthKeyAction::CreateKey { .. }
    ));
    let names = ProxyNames::for_service("a", "b");
    let mut known = AuthKeyKnown::nothing();
    known.config = Some(Ok(config_secret(&names, "minted")));
    assert!(matches!(
        ensure_auth_key(&known, &req).action,
        AuthKeyAction::Done(Ok(AuthKeyStatus::Ready))
    ));
}

#[test]
fn times_stay_in_range() {
    assert_eq!(now_epoch_secs(-1), 0);
    assert_eq!(now_epoch_secs(5), 5);
    assert_eq!(expiration_secs(100, 600), 700);
    assert_eq!(expiration_secs(i64::MAX, 1), i64::MAX);
    assert_eq!(expiration_secs(0, u64::MAX), i64::MAX);
    assert_eq!(expiration_secs(-10, 5), i64::MAX);
    assert_eq!(expiration_secs(-10, 20), 10);
    assert!(!is_key_expired(0, u64::MAX, i64::MAX));
    assert!(is_key_expired(0, 10, 11));
    assert!(!is_key_expired(0, 10, 10));
    assert!(!is_key_expired(0, 0, -1));
    assert!(is_key_expired(-10, 5, -1));
}
