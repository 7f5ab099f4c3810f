use headmaster::error::{
    error_policy, finalizer_error, Error, FinalizerFailure, KubeError, Requeue, Status, StatusCode,
};
use headmaster::instance::{ExternalSpec, HeadscaleInstance, HeadscaleInstanceSpec};
use headmaster::objects::{ObjectMeta, Secret};
use headmaster::step::{Notice, Step};
use headmaster::support::{
    deregister_and_cleanup, headscale_connect, namespace_is_deleting, read_node_id,
    read_secret_json, read_secret_string, reset_if_retargeted, ConnectAction, ConnectError,
    ConnectKnown, DeregisterAction, DeregisterKnown, RetargetAction, RetargetKnown,
};
use headmaster::textmap::TextMap;

fn not_found() -> KubeError {
    KubeError { api_code: Some(404), text: "not found".to_string() }
}

fn server_error() -> KubeError {
    KubeError { api_code: Some(500), text: "server error".to_string() }
}

fn status(code: StatusCode) -> Status {
    Status { code, message: "status".to_string() }
}

fn state(device_id: Option<&str>, headscale_ref: Option<&str>) -> Secret {
    let mut data = TextMap::new();
    if let Some(id) = device_id {
        data.insert("device_id".to_string(), id.as_bytes().to_vec());
    }
    if let Some(name) = headscale_ref {
        data.insert("headscale_ref".to_string(), name.as_bytes().to_vec());
    }
    Secret { data: Some(data), ..Default::default() }
}

fn instance(external: Option<ExternalSpec>) -> HeadscaleInstance {
    HeadscaleInstance {
        spec: HeadscaleInstanceSpec { external, ..Default::default() },
        ..Default::default()
    }
}

fn deregister(known: &DeregisterKnown) -> Step<DeregisterAction> {
    deregister_and_cleanup(known, "main")
}

#[test]
fn namespace_is_deleting_returns_true_on_404() {
    let result = namespace_is_deleting(&Err(not_found())).unwrap();
    assert!(
        result,
        "404 on namespace GET must be treated as namespace gone (deleting)"
    );
}

#[test]
fn namespace_is_deleting_propagates_non_404_error() {
    let result = namespace_is_deleting(&Err(server_error()));
    assert!(result.is_err(), "non-404 GET error must propagate");
}

#[test]
fn namespace_is_deleting_when_marked() {
    assert_eq!(namespace_is_deleting(&Ok(ObjectMeta::default())), Ok(false));
    let marked = ObjectMeta { deletion_timestamp: Some(1), ..Default::default() };
    assert_eq!(namespace_is_deleting(&Ok(marked)), Ok(true));
}

#[test]
fn deregister_and_cleanup_propagates_state_secret_error() {
    let mut known = DeregisterKnown::nothing();
    assert!(matches!(deregister(&known).action, DeregisterAction::ReadState));
    known.state = Some(Err(server_error()));
    let step = deregister(&known);
    assert!(
        matches!(step.action, DeregisterAction::Done(Err(Error::Kube(_)))),
        "state-secret GET error must propagate, and nothing may be deleted"
    );
    assert!(step.notices.is_empty());
}

#[test]
fn deregister_and_cleanup_continues_when_state_secret_absent() {
    let mut known = DeregisterKnown::nothing();
    known.state = Some(Err(not_found()));
    assert!(matches!(deregister(&known).action, DeregisterAction::DeleteResources));
    known.cleaned = true;
    assert!(
        matches!(deregister(&known).action, DeregisterAction::Done(Ok(()))),
        "missing state secret must not abort cleanup"
    );
}

#[test]
fn node_is_deleted_before_the_resources() {
    let mut known = DeregisterKnown::nothing();
    known.state = Some(Ok(state(Some("42"), Some("other"))));
    assert!(matches!(
        deregister(&known).action,
        DeregisterAction::Connect { ref headscale_ref } if headscale_ref == "other"
    ));
    known.connected = Some(Ok(()));
    assert!(matches!(deregister(&known).action, DeregisterAction::DeleteNode { node_id: 42 }));
    for answer in [Ok(()), Err(status(StatusCode::NotFound))] {
        known.node_deleted = Some(answer);
        let step = deregister(&known);
        assert!(matches!(step.action, DeregisterAction::DeleteResources));
        assert_eq!(step.notices, vec![Notice::Deleted]);
    }
}

#[test]
fn undeleted_node_does_not_hold_up_cleanup() {
    let mut known = DeregisterKnown::nothing();
    known.state = Some(Ok(state(Some("42"), Some("main"))));
    known.connected = Some(Ok(()));
    known.node_deleted =
        Some(Err(Status { code: StatusCode::Other, message: "busy".to_string() }));
    let step = deregister(&known);
    assert!(matches!(step.action, DeregisterAction::DeleteResources));
    match step.notices.as_slice() {
        [Notice::Warning(w)] => {
            assert_eq!(w.reason, "NodeOrphaned");
            assert_eq!(
                w.message,
                "could not delete node 42 from headscale: busy; the node may remain registered \
                 in headscale"
            );
        }
        other => panic!("{other:?}"),
    }
    known.cleaned = true;
    let step = deregister(&known);
    assert!(matches!(step.action, DeregisterAction::Done(Ok(()))));
    assert!(step.notices.is_empty());
}

#[test]
fn unreachable_headscale_does_not_hold_up_cleanup() {
    let mut known = DeregisterKnown::nothing();
    known.state = Some(Ok(state(Some("42"), None)));
    assert!(matches!(
        deregister(&known).action,
        DeregisterAction::Connect { ref headscale_ref } if headscale_ref == "main"
    ));
    known.connected = Some(Err(server_error()));
    let step = deregister(&known);
    assert!(matches!(step.action, DeregisterAction::DeleteResources));
    match &step.notices[0] {
        Notice::Warning(w) => {
            assert_eq!(w.reason, "NodeOrphaned");
            assert_eq!(
                w.message,
                "could not connect to headscale to delete node 42: server error; the node may \
                 remain registered in headscale"
            );
        }
        other => panic!("{other:?}"),
    }
}

#[test]
fn unregistered_proxy_has_no_node_to_delete() {
    let mut known = DeregisterKnown::nothing();
    for secret in [state(None, Some("main")), state(Some("x"), Some("main")), Secret::default()] {
        known.state = Some(Ok(secret));
        assert!(matches!(deregister(&known).action, DeregisterAction::DeleteResources));
    }
}

#[test]
fn secrets_are_read_as_text() {
    let secret = state(Some("+7"), Some("main"));
    assert_eq!(read_secret_string(&secret, "headscale_ref").as_deref(), Some("main"));
    assert_eq!(read_node_id(&secret), Some(7));
    assert!(read_secret_string(&secret, "absent").is_none());
    let binary =
        Secret { data: Some(TextMap::with("k", vec![0xff, 0xfe])), ..Default::default() };
    assert!(read_secret_string(&binary, "k").is_none());
    assert!(read_secret_string(&Secret::default(), "k").is_none());
}

#[test]
fn secrets_are_read_as_lists() {
    let list = |json: &str| Secret {
        data: Some(TextMap::with("device_ips", json.as_bytes().to_vec())),
        ..Default::default()
    };
    assert_eq!(
        read_secret_json(&list(r#"["100.64.0.1","fd7a::1"]"#), "device_ips"),
        Some(vec!["100.64.0.1".to_string(), "fd7a::1".to_string()])
    );
    assert_eq!(read_secret_json(&list("[]"), "device_ips"), Some(vec![]));
    for json in ["", "{}", "[1]", "null", "x"] {
        assert_eq!(read_secret_json(&list(json), "device_ips"), None, "{json}");
    }
    assert_eq!(read_secret_json(&Secret::default(), "device_ips"), None);
}

#[test]
fn managed_instances_are_reached_in_the_cluster() {
    let mut known = ConnectKnown::nothing();
    assert!(matches!(headscale_connect(&known, "ops", "main"), ConnectAction::GetInstance));
    known.instance = Some(Ok(instance(None)));
    assert!(matches!(
        headscale_connect(&known, "ops", "main"),
        ConnectAction::GetSecret { ref name } if name == "headscale-api-key-main"
    ));
    known.secret = Some(Ok(Secret {
        data: Some(TextMap::with("HEADSCALE_API_KEY", b"ke\xffy".to_vec())),
        ..Default::default()
    }));
    match headscale_connect(&known, "ops", "main") {
        ConnectAction::Dial { endpoint, api_key } => {
            assert_eq!(endpoint, "http://headscale-server-main.ops.svc:50443");
            assert_eq!(api_key, "ke\u{fffd}y");
        }
        other => panic!("{other:?}"),
    }
}

#[test]
fn external_instances_bring_their_own_endpoint() {
    let mut known = ConnectKnown::nothing();
    known.instance = Some(Ok(instance(Some(ExternalSpec {
        grpc_endpoint: "http://100.64.0.3:50443".to_string(),
        api_key_secret_ref: "external-api-key".to_string(),
    }))));
    assert!(matches!(
        headscale_connect(&known, "ops", "ext"),
        ConnectAction::GetSecret { ref name } if name == "external-api-key"
    ));
    known.secret = Some(Ok(Secret {
        data: Some(TextMap::with("HEADSCALE_API_KEY", b"test-api-key".to_vec())),
        ..Default::default()
    }));
    assert!(matches!(
        headscale_connect(&known, "ops", "ext"),
        ConnectAction::Dial { ref endpoint, ref api_key }
            if endpoint == "http://100.64.0.3:50443" && api_key == "test-api-key"
    ));
}

#[test]
fn failures_to_connect_say_what_is_missing() {
    let mut known = ConnectKnown::nothing();
    known.instance = Some(Err(not_found()));
    assert!(matches!(
        headscale_connect(&known, "ops", "main"),
        ConnectAction::Fail(ConnectError::Kube(ref e)) if *e == not_found()
    ));
    known.instance = Some(Ok(instance(None)));
    known.secret = Some(Err(not_found()));
    match headscale_connect(&known, "ops", "main") {
        ConnectAction::Fail(ConnectError::Failure { message, reason, code }) => {
            assert_eq!(
                message,
                "Secret headscale-api-key-main not found; is HeadscaleInstance ready?"
            );
            assert_eq!((reason, code), ("NotFound", 404));
        }
        other => panic!("{other:?}"),
    }
    known.secret = Some(Err(server_error()));
    assert!(matches!(
        headscale_connect(&known, "ops", "main"),
        ConnectAction::Fail(ConnectError::Kube(_))
    ));
    known.secret = Some(Ok(Secret::default()));
    match headscale_connect(&known, "ops", "main") {
        ConnectAction::Fail(ConnectError::Failure { message, reason, code }) => {
            assert_eq!(message, "api-key secret has no 'HEADSCALE_API_KEY' field");
            assert_eq!((reason, code), ("InvalidSecret", 500));
        }
        other => panic!("{other:?}"),
    }
}

#[test]
fn proxies_that_stay_are_left_alone() {
    let mut known = RetargetKnown::nothing();
    assert!(matches!(reset_if_retargeted(&known, "main"), RetargetAction::ReadState));
    for answer in [
        Ok(state(Some("1"), Some("main"))),
        Ok(state(Some("1"), None)),
        Err(not_found()),
    ] {
        known.state = Some(answer);
        assert!(matches!(reset_if_retargeted(&known, "main"), RetargetAction::Done(Ok(()))));
    }
    known.state = Some(Err(server_error()));
    assert!(matches!(
        reset_if_retargeted(&known, "main"),
        RetargetAction::Done(Err(Error::Kube(_)))
    ));
}

#[test]
fn moved_proxies_leave_the_old_instance_first() {
    let mut known = RetargetKnown::nothing();
    known.state = Some(Ok(state(Some("5"), Some("old"))));
    assert!(matches!(
        reset_if_retargeted(&known, "main"),
        RetargetAction::Connect { ref headscale_ref } if headscale_ref == "old"
    ));
    known.connected = Some(Err(server_error()));
    assert!(matches!(
        reset_if_retargeted(&known, "main"),
        RetargetAction::Done(Err(Error::Kube(_)))
    ));
    known.connected = Some(Ok(()));
    assert!(matches!(
        reset_if_retargeted(&known, "main"),
        RetargetAction::DeleteNode { node_id: 5 }
    ));
    known.node_deleted = Some(Err(status(StatusCode::Internal)));
    assert!(matches!(
        reset_if_retargeted(&known, "main"),
        RetargetAction::Done(Err(Error::HeadscaleApi(_)))
    ));
    known.node_deleted = Some(Err(status(StatusCode::NotFound)));
    assert!(matches!(reset_if_retargeted(&known, "main"), RetargetAction::DeleteConfigSecret));
    known.config_deleted = Some(Ok(()));
    assert!(matches!(reset_if_retargeted(&known, "main"), RetargetAction::DeleteStateSecret));
    known.state_deleted = Some(Err(Error::UnnamedObject));
    assert!(matches!(
        reset_if_retargeted(&known, "main"),
        RetargetAction::Done(Err(Error::UnnamedObject))
    ));
    known.state_deleted = Some(Ok(()));
    assert!(matches!(reset_if_retargeted(&known, "main"), RetargetAction::Done(Ok(()))));
}

#[test]
fn proxies_of_a_deleted_instance_are_just_reset() {
    let mut known = RetargetKnown::nothing();
    known.state = Some(Ok(state(Some("5"), Some("old"))));
    known.connected = Some(Err(not_found()));
    assert!(matches!(reset_if_retargeted(&known, "main"), RetargetAction::DeleteConfigSecret));
    known.state = Some(Ok(state(None, Some("old"))));
    known.connected = None;
    assert!(matches!(reset_if_retargeted(&known, "main"), RetargetAction::DeleteConfigSecret));
}

#[test]
fn guarded_failures_become_errors() {
    assert_eq!(
        finalizer_error(FinalizerFailure::ApplyFailed(Error::MissingNamespace)),
        Error::MissingNamespace
    );
    assert_eq!(
        finalizer_error(FinalizerFailure::CleanupFailed(Error::NodePortNotAssigned)),
        Error::NodePortNotAssigned
    );
    assert_eq!(
        finalizer_error(FinalizerFailure::AddFinalizer(not_found())),
        Error::Kube(not_found())
    );
    assert_eq!(
        finalizer_error(FinalizerFailure::RemoveFinalizer(server_error())),
        Error::Kube(server_error())
    );
    assert_eq!(finalizer_error(FinalizerFailure::UnnamedObject), Error::UnnamedObject);
    assert_eq!(error_policy(), Requeue::After(30));
}
