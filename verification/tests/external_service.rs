use headmaster::annotations::{
    AnnotationError, EgressConsumer, IngressAccessGrant, IngressAnnotations, ANNOTATION_CONFIG,
};
use headmaster::auth_key::AuthKeyStatus;
use headmaster::context::{Context, TunDeviceAccess};
use headmaster::error::{Error, KubeError, Requeue, Status, StatusCode};
use headmaster::external_service::{
    apply, claim_patch, cleanup, external_name_patch, reconcile, refers_to, release_patch,
    service_of_secret, ParentLabels, ReconcileAction,
};
use headmaster::instance::{ExternalSpec, HeadscaleInstance, HeadscaleInstanceSpec};
use headmaster::names::ProxyNames;
use headmaster::objects::{
    IntOrString, ObjectMeta, Secret, Service, ServicePort, ServiceSpec,
};
use headmaster::provision::{report_standing, ProvisionAction, ProvisionKnown};
use headmaster::resources::{Egress, ProxyNetworking};
use headmaster::step::{Notice, Step};
use headmaster::textmap::TextMap;

const FINALIZER: &str = "headmaster.potatonode.github.io/default";

fn not_found() -> KubeError {
    KubeError { api_code: Some(404), text: "not found".to_string() }
}

fn server_error() -> KubeError {
    KubeError { api_code: Some(500), text: "server error".to_string() }
}

fn test_ctx() -> Context {
    Context {
        operator_namespace: "default".to_string(),
        headscale_image: String::new(),
        proxy_image: "proxy:1".to_string(),
        socat_image: "socat:1".to_string(),
        tun_device: TunDeviceAccess::Privileged,
        egress_dns_coredns_custom: false,
        operator_image: String::new(),
        claim_default: true,
    }
}

fn external_name_service(annotation: Option<&str>) -> Service {
    Service {
        metadata: ObjectMeta {
            name: Some("ext-db".to_string()),
            namespace: Some("apps".to_string()),
            uid: Some("00000000-0000-0000-0000-000000000002".to_string()),
            annotations: annotation.map(|a| TextMap::with(ANNOTATION_CONFIG, a.to_string())),
            ..Default::default()
        },
        spec: Some(ServiceSpec {
            type_: Some("ExternalName".to_string()),
            external_name: Some("db.example.net".to_string()),
            ports: Some(vec![ServicePort { port: 5432, ..Default::default() }]),
            ..Default::default()
        }),
    }
}

const ALICE: &str =
    r#"{"headscale-ref":"main","user":"alice","tailnet-fqdn":"db.ts.example.com"}"#;

fn alice() -> IngressAnnotations {
    let mut annotations = IngressAnnotations::minimal("main".to_string());
    annotations.user = Some("alice".to_string());
    annotations.hostname = "ext-db".to_string();
    annotations.tailnet_fqdn = Some("db.ts.example.com".to_string());
    annotations
}

fn no_annotation() -> Result<IngressAnnotations, AnnotationError> {
    Err(AnnotationError::Missing(ANNOTATION_CONFIG))
}

fn instance(watched: &[&str], ready: Option<bool>) -> HeadscaleInstance {
    HeadscaleInstance {
        spec: HeadscaleInstanceSpec {
            watched_namespaces: watched.iter().map(|w| w.to_string()).collect(),
            server_url: "https://headscale.example.com".to_string(),
            ..Default::default()
        },
        ready,
        ..Default::default()
    }
}

fn registered_state(ips: &str) -> Secret {
    let mut data = TextMap::new();
    data.insert("device_id".to_string(), b"12".to_vec());
    data.insert("device_ips".to_string(), ips.as_bytes().to_vec());
    Secret { data: Some(data), ..Default::default() }
}

/// Answers with which the gates are passed.
fn past_the_gates() -> ProvisionKnown {
    let mut known = ProvisionKnown::nothing();
    known.namespace = Some(Ok(ObjectMeta::default()));
    known.instance = Some(Ok(instance(&["apps"], Some(true))));
    known
}

/// Answers with which everything is provisioned.
fn provisioned(state: Secret) -> ProvisionKnown {
    let mut known = past_the_gates();
    known.connected = Some(Ok(()));
    known.networking = Some(Ok(ProxyNetworking::NodePort { node_port: 30123 }));
    known.retargeted = Some(Ok(()));
    known.rotated = Some(Ok(()));
    known.auth_key = Some(Ok(AuthKeyStatus::Ready));
    known.state = Some(Ok(state));
    known.serve_config = Some(Ok(()));
    known.rbac = Some(Ok(()));
    known.network_policy_deleted = Some(Ok(()));
    known.statefulset = Some(Ok(()));
    known.pointed = Some(Ok(()));
    known
}

fn step(known: &ProvisionKnown) -> Step<ProvisionAction> {
    apply(&external_name_service(Some(ALICE)), &test_ctx(), &Ok(alice()), known)
}

fn warning_of<A>(step: &Step<A>) -> Option<(&'static str, &str)> {
    match step.notices.first() {
        Some(Notice::Warning(w)) => Some((w.reason, w.message.as_str())),
        _ => None,
    }
}

// ---- adoption ----

#[test]
fn reconcile_skips_service_without_annotation() {
    let svc = external_name_service(None);
    let action = reconcile(&svc, &test_ctx(), FINALIZER, &no_annotation(), &None);
    assert!(
        matches!(action, ReconcileAction::Done(Ok(Requeue::AwaitChange))),
        "Service without our annotation must be silently skipped"
    );
}

#[test]
fn reconcile_skips_non_external_name_service() {
    let mut svc = external_name_service(Some(ALICE));
    svc.spec.as_mut().unwrap().type_ = Some("ClusterIP".to_string());
    let action = reconcile(&svc, &test_ctx(), FINALIZER, &Ok(alice()), &None);
    assert!(
        matches!(action, ReconcileAction::Done(Ok(Requeue::AwaitChange))),
        "annotated non-ExternalName Service must be silently skipped"
    );
}

#[test]
fn reconcile_skips_service_targeted_at_other_deployment() {
    let svc = external_name_service(Some(
        r#"{"headscale-ref":"main","user":"alice","headscale-namespace":"other-ns"}"#,
    ));
    let action = reconcile(&svc, &test_ctx(), FINALIZER, &Ok(alice()), &None);
    assert!(
        matches!(action, ReconcileAction::Done(Ok(Requeue::AwaitChange))),
        "Service targeting another deployment must be silently skipped"
    );
}

#[test]
fn reconcile_processes_service_when_claim_default_true() {
    let svc = external_name_service(Some(ALICE));
    let action = reconcile(&svc, &test_ctx(), FINALIZER, &Ok(alice()), &None);
    assert!(matches!(action, ReconcileAction::GetInstance { ref name } if name == "main"));
    let failed = Some(Err(server_error()));
    let action = reconcile(&svc, &test_ctx(), FINALIZER, &Ok(alice()), &failed);
    assert!(
        matches!(action, ReconcileAction::Done(Err(Error::Kube(_)))),
        "default deployment must process annotated ExternalName Services (K8s call expected)"
    );
}

#[test]
fn reconcile_adopts_only_covered_namespaces() {
    let svc = external_name_service(Some(ALICE));
    let decide = |answer| {
        reconcile(&svc, &test_ctx(), FINALIZER, &Ok(alice()), &Some(answer))
    };
    assert!(matches!(
        decide(Ok(instance(&["other"], Some(true)))),
        ReconcileAction::Done(Ok(Requeue::AwaitChange))
    ));
    assert!(matches!(decide(Ok(instance(&["other", "*"], None))), ReconcileAction::Finalize));
    assert!(matches!(decide(Err(not_found())), ReconcileAction::Finalize));
    let invalid = reconcile(&svc, &test_ctx(), FINALIZER, &no_annotation(), &None);
    assert!(matches!(invalid, ReconcileAction::Done(Ok(Requeue::AwaitChange))));
}

#[test]
fn reconcile_takes_care_of_adopted_services() {
    let mut svc = external_name_service(None);
    svc.metadata.finalizers = Some(vec!["x".to_string(), FINALIZER.to_string()]);
    let action = reconcile(&svc, &test_ctx(), FINALIZER, &no_annotation(), &None);
    assert!(matches!(action, ReconcileAction::Finalize));
    svc.metadata.namespace = None;
    let action = reconcile(&svc, &test_ctx(), FINALIZER, &no_annotation(), &None);
    assert!(matches!(action, ReconcileAction::Done(Err(Error::MissingNamespace))));
}

// ---- giving up ----

#[test]
fn service_that_lost_its_shape_is_given_up() {
    let mut svc = external_name_service(Some(ALICE));
    svc.spec.as_mut().unwrap().type_ = Some("ClusterIP".to_string());
    let mut known = ProvisionKnown::nothing();
    let decide = |known: &ProvisionKnown| apply(&svc, &test_ctx(), &Ok(alice()), known).action;
    assert!(matches!(
        decide(&known),
        ProvisionAction::Deregister { ref headscale_ref } if headscale_ref == "main"
    ));
    known.torn_down = Some(Err(Error::Kube(server_error())));
    assert!(matches!(decide(&known), ProvisionAction::Done(Err(Error::Kube(_)))));
    known.torn_down = Some(Ok(()));
    assert!(matches!(decide(&known), ProvisionAction::Release));
    known.released = Some(Err(Error::Kube(server_error())));
    assert!(matches!(decide(&known), ProvisionAction::Done(Err(Error::Kube(_)))));
    known.released = Some(Ok(()));
    assert!(matches!(decide(&known), ProvisionAction::Done(Ok(Requeue::AwaitChange))));
}

#[test]
fn service_without_annotation_leaves_no_node_to_find() {
    let svc = external_name_service(None);
    let step = apply(&svc, &test_ctx(), &no_annotation(), &ProvisionKnown::nothing());
    assert!(matches!(step.action, ProvisionAction::DeleteResources));
}

#[test]
fn service_of_another_deployment_is_given_up() {
    let svc = external_name_service(Some(
        r#"{"headscale-ref":"main","user":"alice","headscale-namespace":"other"}"#,
    ));
    let step = apply(&svc, &test_ctx(), &Ok(alice()), &ProvisionKnown::nothing());
    assert!(matches!(step.action, ProvisionAction::Deregister { .. }));
}

#[test]
fn excluded_namespace_is_given_up_with_a_warning() {
    let mut known = past_the_gates();
    known.instance = Some(Ok(instance(&["other"], Some(true))));
    let first = step(&known);
    assert!(matches!(
        first.action,
        ProvisionAction::Deregister { ref headscale_ref } if headscale_ref == "main"
    ));
    assert_eq!(
        warning_of(&first),
        Some((
            "NamespaceExcluded",
            "namespace 'apps' is not in HeadscaleInstance 'main' watchedNamespaces; this Service \
             is now orphaned"
        ))
    );
    known.torn_down = Some(Ok(()));
    let second = step(&known);
    assert!(matches!(second.action, ProvisionAction::Release));
    assert!(second.notices.is_empty());
}

#[test]
fn deleted_service_is_cleaned_up() {
    let svc = external_name_service(Some(ALICE));
    let mut known = ProvisionKnown::nothing();
    assert!(matches!(
        cleanup(&svc, &known),
        ProvisionAction::Deregister { ref headscale_ref } if headscale_ref == "main"
    ));
    assert!(matches!(
        cleanup(&external_name_service(None), &known),
        ProvisionAction::Deregister { ref headscale_ref } if headscale_ref.is_empty()
    ));
    known.torn_down = Some(Err(Error::MissingNamespace));
    assert!(matches!(
        cleanup(&svc, &known),
        ProvisionAction::Done(Err(Error::MissingNamespace))
    ));
    known.torn_down = Some(Ok(()));
    assert!(matches!(
        cleanup(&svc, &known),
        ProvisionAction::Done(Ok(Requeue::AwaitChange))
    ));
}

// ---- gates ----

#[test]
fn invalid_annotation_is_an_error() {
    let svc = external_name_service(Some("{"));
    let parsed = Err(AnnotationError::Invalid(ANNOTATION_CONFIG, "EOF".to_string()));
    let step = apply(&svc, &test_ctx(), &parsed, &ProvisionKnown::nothing());
    assert!(matches!(
        step.action,
        ProvisionAction::Done(Err(Error::Annotation(AnnotationError::Invalid(_, _))))
    ));
}

#[test]
fn gates_are_asked_in_order() {
    let mut known = ProvisionKnown::nothing();
    assert!(matches!(step(&known).action, ProvisionAction::GetNamespace));
    known.namespace = Some(Err(server_error()));
    assert!(matches!(step(&known).action, ProvisionAction::Done(Err(Error::Kube(_)))));
    known.namespace = Some(Err(not_found()));
    assert!(matches!(step(&known).action, ProvisionAction::Done(Ok(Requeue::AwaitChange))));
    known.namespace = Some(Ok(ObjectMeta::default()));
    assert!(matches!(
        step(&known).action,
        ProvisionAction::GetInstance { ref name } if name == "main"
    ));
    known.instance = Some(Err(server_error()));
    assert!(matches!(step(&known).action, ProvisionAction::Done(Err(Error::Kube(_)))));
}

#[test]
fn missing_and_unready_instances_are_waited_for() {
    let mut known = past_the_gates();
    known.instance = Some(Err(not_found()));
    let missing = step(&known);
    assert!(matches!(missing.action, ProvisionAction::Done(Ok(Requeue::After(30)))));
    assert_eq!(
        warning_of(&missing),
        Some(("Pending", "HeadscaleInstance 'main' does not exist"))
    );
    for ready in [None, Some(false)] {
        known.instance = Some(Ok(instance(&["apps"], ready)));
        let unready = step(&known);
        assert!(matches!(unready.action, ProvisionAction::Done(Ok(Requeue::After(5)))));
        assert_eq!(
            warning_of(&unready),
            Some(("Pending", "HeadscaleInstance 'main' is not yet ready"))
        );
    }
}

#[test]
fn unusable_services_are_warned_about() {
    let known = past_the_gates();
    let decide = |svc: &Service, annotations: IngressAnnotations| {
        apply(svc, &test_ctx(), &Ok(annotations), &known)
    };
    let mut nameless = external_name_service(Some(ALICE));
    nameless.spec.as_mut().unwrap().external_name = Some(String::new());
    let mut portless = external_name_service(Some(ALICE));
    portless.spec.as_mut().unwrap().ports = None;
    let mut hostless = alice();
    hostless.tailnet_fqdn = None;
    let mut empty_host = alice();
    empty_host.tailnet_fqdn = Some(String::new());
    let whole = external_name_service(Some(ALICE));
    for (step, message) in [
        (decide(&nameless, alice()), "ExternalName Service has no spec.externalName"),
        (
            decide(&portless, alice()),
            "ExternalName Service declares no TCP ports; add spec.ports to expose it",
        ),
        (decide(&whole, hostless), "ExternalName Service has no 'tailnet-fqdn'"),
        (decide(&whole, empty_host), "ExternalName Service has no 'tailnet-fqdn'"),
    ] {
        assert!(matches!(step.action, ProvisionAction::Done(Ok(Requeue::AwaitChange))));
        assert_eq!(warning_of(&step), Some(("InvalidConfig", message)));
    }
}

// ---- provisioning ----

#[test]
fn proxy_is_provisioned_step_by_step() {
    let mut known = past_the_gates();
    assert!(matches!(
        step(&known).action,
        ProvisionAction::Connect { ref headscale_ref } if headscale_ref == "main"
    ));
    known.connected = Some(Ok(()));
    assert!(matches!(
        step(&known).action,
        ProvisionAction::ApplyWireguard { host_network: false, ref forwards }
            if *forwards == [(5432, 5432)]
    ));
    known.networking = Some(Ok(ProxyNetworking::NodePort { node_port: 30123 }));
    assert!(matches!(step(&known).action, ProvisionAction::ResetIfRetargeted { .. }));
    known.retargeted = Some(Ok(()));
    assert!(matches!(step(&known).action, ProvisionAction::RotateStaleKey { expiry_secs: 600 }));
    known.rotated = Some(Ok(()));
    match step(&known).action {
        ProvisionAction::EnsureAuthKey(request) => {
            assert_eq!(request.user.as_deref(), Some("alice"));
            assert!(request.managed_key_tags.is_empty());
            assert!(request.auto_tag.is_none());
            assert_eq!(request.expiry_secs, 600);
            assert!(!request.reusable && !request.ephemeral);
        }
        other => panic!("{other:?}"),
    }
    known.auth_key = Some(Ok(AuthKeyStatus::Ready));
    assert!(matches!(step(&known).action, ProvisionAction::EnsureState { .. }));
    known.state = Some(Ok(Secret::default()));
    match step(&known).action {
        ProvisionAction::ApplyServeConfig { serve_json } => {
            assert_eq!(serve_json["TCP"]["5432"]["TCPForward"], "db.ts.example.com:5432");
        }
        other => panic!("{other:?}"),
    }
    known.serve_config = Some(Ok(()));
    assert!(matches!(step(&known).action, ProvisionAction::ApplyRbac));
    known.rbac = Some(Ok(()));
    assert!(matches!(step(&known).action, ProvisionAction::DeleteNetworkPolicy));
    known.network_policy_deleted = Some(Ok(()));
    match step(&known).action {
        ProvisionAction::ApplyStatefulSet { login_url, hostname, networking, egress } => {
            assert_eq!(
                egress,
                Some(Egress {
                    image: "socat:1".to_string(),
                    host: "db.ts.example.com".to_string(),
                    forwards: vec![(5432, 5432)],
                })
            );
            assert_eq!(login_url, "http://headscale-server-main.default.svc.cluster.local:8080");
            assert_eq!(hostname, "ext-db");
            assert_eq!(networking, ProxyNetworking::NodePort { node_port: 30123 });
        }
        other => panic!("{other:?}"),
    }
    known.statefulset = Some(Ok(()));
    let names = ProxyNames::for_service("apps", "ext-db");
    match step(&known).action {
        ProvisionAction::PointAtProxy { external_name } => assert_eq!(
            external_name,
            format!("{}.default.svc.cluster.local", names.wg_service_name)
        ),
        other => panic!("{other:?}"),
    }
    known.pointed = Some(Ok(()));
    assert!(matches!(step(&known).action, ProvisionAction::Claim));
    known.claimed = Some(Ok(()));
    assert!(matches!(step(&known).action, ProvisionAction::Done(Ok(Requeue::AwaitChange))));
}

#[test]
fn target_ports_are_ports_of_the_tailnet_host() {
    let mut svc = external_name_service(Some(ALICE));
    svc.spec.as_mut().unwrap().ports = Some(vec![
        ServicePort {
            port: 443,
            target_port: Some(IntOrString::Int(8443)),
            ..Default::default()
        },
        ServicePort { port: 53, protocol: Some("UDP".to_string()), ..Default::default() },
    ]);
    let mut known = provisioned(Secret::default());
    known.serve_config = None;
    match apply(&svc, &test_ctx(), &Ok(alice()), &known).action {
        ProvisionAction::ApplyServeConfig { serve_json } => assert_eq!(
            serde_json::to_string(&serve_json).unwrap(),
            r#"{"TCP":{"443":{"TCPForward":"db.ts.example.com:8443"}}}"#
        ),
        other => panic!("{other:?}"),
    }
    known.serve_config = Some(Ok(()));
    known.statefulset = None;
    match apply(&svc, &test_ctx(), &Ok(alice()), &known).action {
        ProvisionAction::ApplyStatefulSet { egress: Some(egress), .. } => {
            assert_eq!(egress.forwards, vec![(443, 8443)]);
        }
        other => panic!("{other:?}"),
    }
    known.networking = None;
    match apply(&svc, &test_ctx(), &Ok(alice()), &known).action {
        ProvisionAction::ApplyWireguard { forwards, .. } => {
            assert_eq!(forwards, vec![(443, 8443)]);
        }
        other => panic!("{other:?}"),
    }
}

#[test]
fn consumers_are_the_only_peers() {
    let svc = external_name_service(Some(ALICE));
    let mut annotations = alice();
    annotations.consumers = vec![
        EgressConsumer {
            namespace: "media".to_string(),
            pods: Some(TextMap::with("app", "sonarr".to_string())),
        },
        EgressConsumer { namespace: "backup".to_string(), pods: None },
    ];
    let parsed = Ok(annotations);
    let mut known = provisioned(Secret::default());
    known.statefulset = None;
    match apply(&svc, &test_ctx(), &parsed, &known).action {
        ProvisionAction::ApplyNetworkPolicy { peers } => {
            assert_eq!(peers.len(), 2);
            let namespace = |i: usize| {
                peers[i].namespace_selector.match_labels.as_ref().unwrap().entries().clone()
            };
            let name = "kubernetes.io/metadata.name".to_string();
            assert_eq!(namespace(0), vec![(name.clone(), "media".to_string())]);
            assert_eq!(namespace(1), vec![(name, "backup".to_string())]);
            assert_eq!(
                peers[0].pod_selector.match_labels,
                Some(TextMap::with("app", "sonarr".to_string()))
            );
            assert_eq!(peers[1].pod_selector.match_labels, None);
        }
        other => panic!("{other:?}"),
    }
    known.network_policy = Some(Err(Error::Kube(server_error())));
    assert!(matches!(
        apply(&svc, &test_ctx(), &parsed, &known).action,
        ProvisionAction::Done(Err(Error::Kube(_)))
    ));
    known.network_policy = Some(Ok(()));
    assert!(matches!(
        apply(&svc, &test_ctx(), &parsed, &known).action,
        ProvisionAction::ApplyStatefulSet { .. }
    ));
}

#[test]
fn access_is_ignored_on_external_name_services() {
    let svc = external_name_service(Some(ALICE));
    let mut annotations = alice();
    annotations.host_network = true;
    annotations.access = vec![
        IngressAccessGrant { from: vec!["group:eng".to_string()], capabilities: None },
        IngressAccessGrant { from: vec![], capabilities: None },
    ];
    let parsed = Ok(annotations);
    let first = apply(&svc, &test_ctx(), &parsed, &ProvisionKnown::nothing());
    assert!(matches!(first.action, ProvisionAction::GetNamespace));
    let messages: Vec<&str> = first
        .notices
        .iter()
        .map(|notice| match notice {
            Notice::Warning(w) if w.reason == "IgnoredConfig" => w.message.as_str(),
            other => panic!("{other:?}"),
        })
        .collect();
    assert_eq!(
        messages,
        vec![
            "'access' does not apply to ExternalName Services; ignored",
            "'host-network' does not apply to ExternalName Services; ignored",
        ]
    );
    let mut known = provisioned(registered_state(r#"["100.64.0.1"]"#));
    assert!(matches!(
        apply(&svc, &test_ctx(), &parsed, &known).action,
        ProvisionAction::Claim
    ));
    known.auth_key = None;
    match apply(&svc, &test_ctx(), &parsed, &known).action {
        ProvisionAction::EnsureAuthKey(request) => assert!(request.auto_tag.is_none()),
        other => panic!("{other:?}"),
    }
}

#[test]
fn host_network_is_ignored_on_external_name_services() {
    let svc = external_name_service(Some(ALICE));
    let mut annotations = alice();
    annotations.host_network = true;
    let parsed = Ok(annotations);
    let first = apply(&svc, &test_ctx(), &parsed, &ProvisionKnown::nothing());
    assert!(matches!(first.action, ProvisionAction::GetNamespace));
    assert_eq!(
        warning_of(&first),
        Some((
            "IgnoredConfig",
            "'host-network' does not apply to ExternalName Services; ignored"
        ))
    );
    let mut known = past_the_gates();
    known.connected = Some(Ok(()));
    let second = apply(&svc, &test_ctx(), &parsed, &known);
    assert!(second.notices.is_empty());
    assert!(matches!(second.action, ProvisionAction::ApplyWireguard { host_network: false, .. }));
}

#[test]
fn every_failure_ends_the_run() {
    let fail = || Error::Kube(server_error());
    let mut known = past_the_gates();
    known.connected = Some(Err(server_error()));
    assert!(matches!(step(&known).action, ProvisionAction::Done(Err(Error::Kube(_)))));
    let mut known = provisioned(Secret::default());
    known.claimed = Some(Err(server_error()));
    assert!(matches!(step(&known).action, ProvisionAction::Done(Err(Error::Kube(_)))));
    known.pointed = Some(Err(server_error()));
    assert!(matches!(step(&known).action, ProvisionAction::Done(Err(Error::Kube(_)))));
    known.statefulset = Some(Err(Error::UnnamedObject));
    assert!(matches!(step(&known).action, ProvisionAction::Done(Err(Error::UnnamedObject))));
    known.network_policy_deleted = Some(Err(fail()));
    assert!(matches!(step(&known).action, ProvisionAction::Done(Err(Error::Kube(_)))));
    known.rbac = Some(Err(Error::UnnamedObject));
    assert!(matches!(step(&known).action, ProvisionAction::Done(Err(Error::UnnamedObject))));
    known.serve_config = Some(Err(fail()));
    assert!(matches!(step(&known).action, ProvisionAction::Done(Err(Error::Kube(_)))));
    known.state = Some(Err(Error::MissingNamespace));
    assert!(matches!(step(&known).action, ProvisionAction::Done(Err(Error::MissingNamespace))));
    known.auth_key = Some(Ok(AuthKeyStatus::WaitingForUser));
    assert!(matches!(step(&known).action, ProvisionAction::Done(Ok(Requeue::After(30)))));
    known.auth_key = Some(Err(fail()));
    assert!(matches!(step(&known).action, ProvisionAction::Done(Err(Error::Kube(_)))));
    known.rotated = Some(Err(Error::MissingNamespace));
    assert!(matches!(step(&known).action, ProvisionAction::Done(Err(Error::MissingNamespace))));
    known.retargeted = Some(Err(fail()));
    assert!(matches!(step(&known).action, ProvisionAction::Done(Err(Error::Kube(_)))));
    known.networking = Some(Err(Error::NodePortNotAssigned));
    assert!(matches!(
        step(&known).action,
        ProvisionAction::Done(Err(Error::NodePortNotAssigned))
    ));
}

#[test]
fn external_instances_are_logged_in_to_at_their_url() {
    let mut known = provisioned(Secret::default());
    known.statefulset = None;
    let mut external = instance(&["*"], Some(true));
    external.spec.external = Some(ExternalSpec::default());
    known.instance = Some(Ok(external));
    assert!(matches!(
        step(&known).action,
        ProvisionAction::ApplyStatefulSet { ref login_url, .. }
            if login_url == "https://headscale.example.com"
    ));
}

#[test]
fn unregistered_proxy_is_warned_about() {
    let step = step(&provisioned(Secret::default()));
    assert!(matches!(step.action, ProvisionAction::Claim));
    let names = ProxyNames::for_service("apps", "ext-db");
    let expected = format!(
        "proxy for Service 'ext-db' has not registered with headscale; if this persists beyond \
         the auth-key expiry window, delete the Secret '{}' to force key rotation",
        names.config_secret_name
    );
    assert_eq!(warning_of(&step), Some(("ProxyNotRegistered", expected.as_str())));
}

#[test]
fn registered_proxy_is_ready_once_it_has_an_address() {
    let with_ip = step(&provisioned(registered_state(r#"["100.64.0.1"]"#)));
    assert!(matches!(with_ip.action, ProvisionAction::Claim));
    assert_eq!(with_ip.notices, vec![Notice::Ready]);
    for ips in ["[]", "x"] {
        assert!(step(&provisioned(registered_state(ips))).notices.is_empty());
    }
}

#[test]
fn standing_is_reported_from_registration_and_addresses() {
    let report = |registered, ips| report_standing(registered, &ips, "proxy for '", "db", "key");
    assert_eq!(report(true, Some(vec!["100.64.0.1".to_string()])), Some(Notice::Ready));
    assert_eq!(report(true, Some(vec![])), None);
    assert_eq!(report(true, None), None);
    match report(false, None) {
        Some(Notice::Warning(w)) => assert!(w.message.starts_with("proxy for 'db' has not ")),
        other => panic!("{other:?}"),
    }
}

#[test]
fn tags_are_kept_in_sync() {
    let svc = external_name_service(Some(ALICE));
    let mut annotations = alice();
    annotations.managed_key_tags =
        vec!["tag:z".to_string(), "tag:a".to_string(), "tag:z".to_string()];
    annotations.access =
        vec![IngressAccessGrant { from: vec!["group:eng".to_string()], capabilities: None }];
    let parsed = Ok(annotations);
    let mut known = provisioned(registered_state(r#"["100.64.0.1"]"#));
    match apply(&svc, &test_ctx(), &parsed, &known).action {
        ProvisionAction::SetTags { node_id, tags } => {
            assert_eq!(node_id, 12);
            assert_eq!(tags, vec!["tag:a".to_string(), "tag:z".to_string()]);
        }
        other => panic!("{other:?}"),
    }
    known.tagged = Some(Err(Status { code: StatusCode::Other, message: String::new() }));
    assert!(matches!(
        apply(&svc, &test_ctx(), &parsed, &known).action,
        ProvisionAction::Claim
    ));
    known.claimed = Some(Ok(()));
    assert!(matches!(
        apply(&svc, &test_ctx(), &parsed, &known).action,
        ProvisionAction::Done(Ok(Requeue::After(30)))
    ));
    known.tagged = Some(Ok(()));
    assert!(matches!(
        apply(&svc, &test_ctx(), &parsed, &known).action,
        ProvisionAction::Done(Ok(Requeue::AwaitChange))
    ));
}

// ---- patches and triggers ----

#[test]
fn claimed_services_name_their_owner() {
    let svc = external_name_service(None);
    let patch = claim_patch(&svc, &test_ctx(), "example.com/claimed-by");
    assert_eq!(
        serde_json::to_string(&patch).unwrap(),
        r#"{"apiVersion":"v1","kind":"Service","metadata":{"name":"ext-db","namespace":"apps","annotations":{"example.com/claimed-by":"default"}}}"#
    );
}

#[test]
fn pointed_services_get_a_new_external_name() {
    assert_eq!(
        serde_json::to_string(&external_name_patch("proxy-wg-x.ops.svc.cluster.local")).unwrap(),
        r#"{"spec":{"externalName":"proxy-wg-x.ops.svc.cluster.local"}}"#
    );
}

#[test]
fn released_services_keep_other_finalizers() {
    let mut svc = external_name_service(None);
    svc.metadata.resource_version = Some("7".to_string());
    svc.metadata.finalizers =
        Some(vec!["a".to_string(), FINALIZER.to_string(), "b".to_string()]);
    let patch = release_patch(&svc, FINALIZER, "example.com/claimed-by");
    assert_eq!(
        serde_json::to_string(&patch).unwrap(),
        r#"{"metadata":{"resourceVersion":"7","finalizers":["a","b"],"annotations":{"example.com/claimed-by":null}}}"#
    );
    svc.metadata.resource_version = None;
    svc.metadata.finalizers = None;
    assert_eq!(
        serde_json::to_string(&release_patch(&svc, FINALIZER, "c")).unwrap(),
        r#"{"metadata":{"resourceVersion":"","finalizers":[],"annotations":{"c":null}}}"#
    );
}

#[test]
fn changed_secrets_lead_to_their_service() {
    let labels = ParentLabels {
        kind: "kind".to_string(),
        service_kind: "service".to_string(),
        name: "name".to_string(),
        namespace: "namespace".to_string(),
    };
    let meta = |kind: Option<&str>, name: Option<&str>| {
        let mut map = TextMap::with("namespace", "apps".to_string());
        if let Some(kind) = kind {
            map.insert("kind".to_string(), kind.to_string());
        }
        if let Some(name) = name {
            map.insert("name".to_string(), name.to_string());
        }
        ObjectMeta { labels: Some(map), ..Default::default() }
    };
    assert_eq!(
        service_of_secret(&meta(Some("service"), Some("db")), &labels),
        Some(("db".to_string(), "apps".to_string()))
    );
    assert!(service_of_secret(&meta(Some("ingress"), Some("db")), &labels).is_none());
    assert!(service_of_secret(&meta(None, Some("db")), &labels).is_none());
    assert!(service_of_secret(&meta(Some("service"), None), &labels).is_none());
    assert!(service_of_secret(&ObjectMeta::default(), &labels).is_none());
}

#[test]
fn changed_instances_lead_to_the_services_that_name_them() {
    let svc = external_name_service(Some(ALICE));
    assert!(refers_to(&svc, "main"));
    assert!(!refers_to(&svc, "other"));
    assert!(!refers_to(&external_name_service(None), "main"));
}
