use headmaster::annotations::ANNOTATION_CONFIG;
use headmaster::error::{KubeError, Requeue};
use headmaster::headscale_instance::{
    apply, apply_external, cleanup, headscale_service, list_contributing_ingresses,
    orphan_warning, reconcile, InstanceAction, InstanceCleanupAction, InstanceCleanupKnown,
    InstanceError, InstanceKnown, Readiness, INGRESS_CLASS_ANNOTATION,
};
use headmaster::instance::{ExternalSpec, HeadscaleInstance, HeadscaleInstanceSpec};
use headmaster::objects::{Ingress, IngressSpec, IntOrString, ObjectMeta};
use headmaster::step::Notice;
use headmaster::textmap::TextMap;

fn server_error() -> KubeError {
    KubeError { api_code: Some(500), text: "server error".to_string() }
}

fn minimal_instance(name: &str) -> HeadscaleInstance {
    HeadscaleInstance {
        metadata: ObjectMeta {
            name: Some(name.to_string()),
            namespace: Some("default".to_string()),
            generation: Some(3),
            ..Default::default()
        },
        spec: HeadscaleInstanceSpec {
            watched_namespaces: vec!["apps".to_string()],
            ..Default::default()
        },
        ready: None,
    }
}

fn external_instance() -> HeadscaleInstance {
    let mut instance = minimal_instance("ext");
    instance.spec.external = Some(ExternalSpec {
        grpc_endpoint: "http://100.64.0.3:50443".to_string(),
        api_key_secret_ref: "external-api-key".to_string(),
    });
    instance
}

fn ingress(ns: &str, class: Option<&str>, headscale_ref: &str) -> Ingress {
    Ingress {
        metadata: ObjectMeta {
            name: Some("app".to_string()),
            namespace: Some(ns.to_string()),
            annotations: Some(TextMap::with(
                ANNOTATION_CONFIG,
                format!(r#"{{"headscale-ref":"{headscale_ref}"}}"#),
            )),
            ..Default::default()
        },
        spec: Some(IngressSpec {
            ingress_class_name: class.map(|c| c.to_string()),
            ..Default::default()
        }),
    }
}

/// Answers with which a running server is reached.
fn running() -> InstanceKnown {
    let mut known = InstanceKnown::nothing();
    known.children = Some(Ok(()));
    known.ready_replicas = Some(Ok(Some(1)));
    known
}

fn readiness(ready: bool, reason: &'static str, message: &str) -> Readiness {
    Readiness { ready, reason, message: message.to_string(), generation: 3 }
}

#[test]
fn apply_external_ready_when_probe_succeeds() {
    let obj = external_instance();
    let mut known = InstanceKnown::nothing();
    assert!(matches!(apply_external(&obj, &known), InstanceAction::Probe));
    known.probe = Some(Ok(()));
    match apply_external(&obj, &known) {
        InstanceAction::SetStatus(r) => assert_eq!(
            r,
            readiness(
                true,
                "ExternalReachable",
                "external headscale answered an authenticated gRPC call"
            ),
            "a Ready status patch must be issued"
        ),
        other => panic!("{other:?}"),
    }
    known.status = Some(Ok(()));
    assert!(matches!(apply_external(&obj, &known), InstanceAction::PublishTransitions));
    known.published = true;
    assert!(
        matches!(apply_external(&obj, &known), InstanceAction::Done(Ok(Requeue::After(60)))),
        "probe success must reconcile cleanly"
    );
}

#[test]
fn apply_external_not_ready_when_secret_missing() {
    let obj = external_instance();
    let mut known = InstanceKnown::nothing();
    known.probe = Some(Err("Secret external-api-key not found".to_string()));
    match apply_external(&obj, &known) {
        InstanceAction::SetStatus(r) => assert_eq!(
            r,
            readiness(
                false,
                "ExternalUnreachable",
                "external headscale probe failed: Secret external-api-key not found"
            ),
            "a not-ready status patch must be issued"
        ),
        other => panic!("{other:?}"),
    }
    known.status = Some(Ok(()));
    known.published = true;
    assert!(
        matches!(apply_external(&obj, &known), InstanceAction::Done(Ok(Requeue::After(15)))),
        "probe failure must requeue, not error"
    );
}

#[test]
fn apply_external_rejects_operator_owned_fields() {
    let with = |set: fn(&mut HeadscaleInstanceSpec)| {
        let mut obj = external_instance();
        set(&mut obj.spec);
        obj
    };
    for obj in [
        with(|spec| spec.has_policy = true),
        with(|spec| spec.has_scim = true),
        with(|spec| spec.has_extra_config = true),
    ] {
        let mut known = InstanceKnown::nothing();
        match apply_external(&obj, &known) {
            InstanceAction::TrySetStatus(r) => {
                assert!(!r.ready);
                assert_eq!(r.reason, "ExternalSpecConflict");
            }
            other => panic!("{other:?}"),
        }
        known.status = Some(Err(InstanceError::Kube(server_error())));
        assert!(
            matches!(
                apply_external(&obj, &known),
                InstanceAction::Done(Err(InstanceError::ExternalSpecConflict))
            ),
            "external + policy must be rejected even past the webhook"
        );
    }
}

#[test]
fn external_instances_are_dispatched() {
    assert!(matches!(
        apply(&external_instance(), &InstanceKnown::nothing()),
        InstanceAction::Probe
    ));
    assert!(matches!(
        apply(&minimal_instance("main"), &InstanceKnown::nothing()),
        InstanceAction::EnsureChildren
    ));
}

#[test]
fn failed_children_go_into_the_status() {
    let obj = minimal_instance("main");
    let mut known = InstanceKnown::nothing();
    known.children = Some(Err(InstanceError::Other("no quota".to_string())));
    match apply(&obj, &known) {
        InstanceAction::TrySetStatus(r) => assert_eq!(
            r,
            readiness(false, "ChildApplyFailed", "failed to apply child resource: no quota")
        ),
        other => panic!("{other:?}"),
    }
    known.status = Some(Ok(()));
    assert!(matches!(
        apply(&obj, &known),
        InstanceAction::Done(Err(InstanceError::Other(ref text))) if text == "no quota"
    ));
}

#[test]
fn server_is_waited_for() {
    let obj = minimal_instance("main");
    let mut known = InstanceKnown::nothing();
    known.children = Some(Ok(()));
    assert!(matches!(
        apply(&obj, &known),
        InstanceAction::GetStatefulSet { ref name } if name == "headscale-server-main"
    ));
    for replicas in [None, Some(0)] {
        known.ready_replicas = Some(Ok(replicas));
        match apply(&obj, &known) {
            InstanceAction::SetStatus(r) => assert_eq!(
                r,
                readiness(
                    false,
                    "StatefulSetNotReady",
                    "headscale StatefulSet is not yet ready"
                )
            ),
            other => panic!("{other:?}"),
        }
    }
    known.status = Some(Ok(()));
    known.published = true;
    assert!(matches!(apply(&obj, &known), InstanceAction::Done(Ok(Requeue::After(10)))));
    known.ready_replicas = Some(Err(server_error()));
    assert!(matches!(
        apply(&obj, &known),
        InstanceAction::Done(Err(InstanceError::Kube(_)))
    ));
}

#[test]
fn running_server_is_worked_on_in_order() {
    let mut obj = minimal_instance("main");
    let mut known = running();
    assert!(matches!(apply(&obj, &known), InstanceAction::EnsureApiKey));
    known.api_key = Some(Ok(()));
    assert!(matches!(apply(&obj, &known), InstanceAction::ListIngresses));
    known.ingresses = Some(Ok(vec![
        ingress("apps", Some("nginx"), "main"),
        ingress("apps", Some("headmaster"), "main"),
        ingress("other", Some("headmaster"), "main"),
    ]));
    assert!(matches!(
        apply(&obj, &known),
        InstanceAction::SyncPolicy { ref ingresses } if *ingresses == vec![1]
    ));
    known.policy = Some(Ok(()));
    assert!(matches!(apply(&obj, &known), InstanceAction::DeleteScim));
    obj.spec.has_scim = true;
    assert!(matches!(apply(&obj, &known), InstanceAction::EnsureScim));
    known.scim = Some(Ok(()));
    match apply(&obj, &known) {
        InstanceAction::SetStatus(r) => assert_eq!(
            r,
            readiness(true, "StatefulSetReady", "headscale StatefulSet is ready")
        ),
        other => panic!("{other:?}"),
    }
    known.status = Some(Err(InstanceError::Kube(server_error())));
    assert!(matches!(
        apply(&obj, &known),
        InstanceAction::Done(Err(InstanceError::Kube(_)))
    ));
    known.status = Some(Ok(()));
    assert!(matches!(apply(&obj, &known), InstanceAction::PublishTransitions));
    known.published = true;
    assert!(matches!(apply(&obj, &known), InstanceAction::Done(Ok(Requeue::After(60)))));
}

#[test]
fn failures_on_a_running_server_take_ready_back() {
    let mut obj = minimal_instance("main");
    let mut known = running();
    known.api_key = Some(Err(InstanceError::Other("refused".to_string())));
    match apply(&obj, &known) {
        InstanceAction::TrySetStatus(r) => {
            assert_eq!(r, readiness(false, "ReconcileFailed", "refused"))
        }
        other => panic!("{other:?}"),
    }
    known.api_key = Some(Ok(()));
    known.ingresses = Some(Err(server_error()));
    match apply(&obj, &known) {
        InstanceAction::TrySetStatus(r) => {
            assert_eq!(r, readiness(false, "ReconcileFailed", "server error"))
        }
        other => panic!("{other:?}"),
    }
    obj.spec.has_scim = true;
    obj.spec.policy_has_groups = true;
    match apply(&obj, &known) {
        InstanceAction::TrySetStatus(r) => assert_eq!(r.reason, "ScimPolicyConflict"),
        other => panic!("{other:?}"),
    }
    known.status = Some(Ok(()));
    assert!(matches!(
        apply(&obj, &known),
        InstanceAction::Done(Err(InstanceError::ScimPolicyConflict))
    ));
}

#[test]
fn instances_need_a_namespace() {
    let mut obj = minimal_instance("main");
    assert_eq!(reconcile(&obj), Ok("default".to_string()));
    obj.metadata.namespace = None;
    assert_eq!(reconcile(&obj), Err(InstanceError::MissingNamespace));
    assert!(matches!(
        apply(&obj, &InstanceKnown::nothing()),
        InstanceAction::Done(Err(InstanceError::MissingNamespace))
    ));
    assert_eq!(InstanceError::MissingNamespace.message(), "object has no namespace");
    assert_eq!(InstanceError::UnnamedObject.clone().message(), "object has no name");
}

#[test]
fn contributing_ingresses_have_class_reference_and_namespace() {
    let mut by_annotation = ingress("apps", None, "main");
    by_annotation
        .metadata
        .annotations
        .as_mut()
        .unwrap()
        .insert(INGRESS_CLASS_ANNOTATION.to_string(), "headmaster".to_string());
    let all = vec![
        ingress("apps", Some("headmaster"), "main"),
        ingress("apps", None, "main"),
        by_annotation,
        ingress("apps", Some("headmaster"), "other"),
        ingress("media", Some("headmaster"), "main"),
    ];
    assert_eq!(
        list_contributing_ingresses(&all, "main", &vec!["apps".to_string()]),
        vec![0, 2]
    );
    assert_eq!(list_contributing_ingresses(&all, "main", &vec!["*".to_string()]), vec![0, 2, 4]);
    assert!(list_contributing_ingresses(&all, "main", &vec![]).is_empty());
}

#[test]
fn deleted_instance_tells_its_ingresses_and_drops_its_volumes() {
    let obj = minimal_instance("main");
    let mut known = InstanceCleanupKnown::nothing();
    assert!(matches!(cleanup(&obj, &known).action, InstanceCleanupAction::ListIngresses));
    known.ingresses = Some(Ok(vec![
        ingress("elsewhere", Some("headmaster"), "main"),
        ingress("apps", Some("headmaster"), "other"),
    ]));
    assert!(matches!(
        cleanup(&obj, &known).action,
        InstanceCleanupAction::Orphan { ref ingresses } if *ingresses == vec![0]
    ));
    known.orphaned = true;
    assert!(matches!(
        cleanup(&obj, &known).action,
        InstanceCleanupAction::DeleteVolumeClaim { ref name }
            if name == "data-headscale-server-main-0"
    ));
    known.server_claim = Some(Ok(()));
    assert!(matches!(
        cleanup(&obj, &known).action,
        InstanceCleanupAction::DeleteVolumeClaim { ref name }
            if name == "data-headscale-scim-main-0"
    ));
    known.scim_claim = Some(Ok(()));
    let done = cleanup(&obj, &known);
    assert!(matches!(done.action, InstanceCleanupAction::Done(Ok(Requeue::AwaitChange))));
    assert_eq!(done.notices, vec![Notice::Deleted]);
}

#[test]
fn failures_stop_the_cleanup_of_an_instance() {
    let mut obj = minimal_instance("main");
    let mut known = InstanceCleanupKnown::nothing();
    known.ingresses = Some(Err(server_error()));
    assert!(matches!(
        cleanup(&obj, &known).action,
        InstanceCleanupAction::Done(Err(InstanceError::Kube(_)))
    ));
    known.ingresses = Some(Ok(vec![]));
    known.server_claim = Some(Err(InstanceError::Kube(server_error())));
    assert!(matches!(
        cleanup(&obj, &known).action,
        InstanceCleanupAction::Done(Err(InstanceError::Kube(_)))
    ));
    obj.metadata.namespace = None;
    assert!(matches!(
        cleanup(&obj, &known).action,
        InstanceCleanupAction::Done(Err(InstanceError::MissingNamespace))
    ));
}

#[test]
fn orphaned_ingresses_are_told_why() {
    let warning = orphan_warning("main");
    assert_eq!(warning.reason, "InstanceDeleted");
    assert_eq!(
        warning.message,
        "HeadscaleInstance 'main' was deleted; this Ingress is now orphaned and will stop \
         functioning"
    );
}

#[test]
fn server_ports_target_the_container_ports_of_their_names() {
    let svc = headscale_service("main", 8080, 9090, 50443);
    assert_eq!(svc.metadata.name.as_deref(), Some("headscale-server-main"));
    let ports = svc.spec.unwrap().ports.unwrap();
    let numbers: Vec<i32> = ports.iter().map(|p| p.port).collect();
    assert_eq!(numbers, vec![8080, 9090, 50443]);
    assert_eq!(ports[2].target_port, Some(IntOrString::String("grpc".to_string())));
    assert!(ports.iter().all(|p| p.protocol.as_deref() == Some("TCP")));
}
