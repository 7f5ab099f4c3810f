use headmaster::annotations::{
    AnnotationError, EgressConsumer, IngressAccessGrant, IngressAnnotations, ProxyMode,
    ANNOTATION_CONFIG,
};
use headmaster::auth_key::AuthKeyStatus;
use headmaster::context::{Context, TunDeviceAccess};
use headmaster::error::{Error, KubeError, Requeue, Status, StatusCode};
use headmaster::expose::apply_expose;
use headmaster::instance::{HeadscaleInstance, HeadscaleInstanceSpec};
use headmaster::names::ProxyNames;
use headmaster::objects::{ObjectMeta, Secret, Service, ServicePort, ServiceSpec};
use headmaster::provision::{ProvisionAction, ProvisionKnown};
use headmaster::resources::ProxyNetworking;
use headmaster::step::{Notice, Step};
use headmaster::textmap::TextMap;

fn server_error() -> KubeError {
    KubeError { api_code: Some(500), text: "server error".to_string() }
}

fn context() -> Context {
    Context {
        operator_namespace: "ops".to_string(),
        headscale_image: String::new(),
        proxy_image: "proxy:1".to_string(),
        socat_image: String::new(),
        tun_device: TunDeviceAccess::DevicePlugin { resource: "squat.ai/tun".to_string() },
        egress_dns_coredns_custom: false,
        operator_image: String::new(),
        claim_default: true,
    }
}

fn service(cluster_ip: Option<&str>, port: Option<i32>) -> Service {
    Service {
        metadata: ObjectMeta {
            name: Some("my-app".to_string()),
            namespace: Some("default".to_string()),
            ..Default::default()
        },
        spec: Some(ServiceSpec {
            cluster_ip: cluster_ip.map(|ip| ip.to_string()),
            ports: port.map(|port| vec![ServicePort { port, ..Default::default() }]),
            ..Default::default()
        }),
    }
}

fn annotations(mode: ProxyMode) -> IngressAnnotations {
    let mut annotations = IngressAnnotations::minimal("main".to_string());
    annotations.managed_key_tags = vec!["tag:web".to_string()];
    annotations.hostname = "my-app".to_string();
    annotations.mode = mode;
    annotations
}

fn past_the_gates() -> ProvisionKnown {
    let mut known = ProvisionKnown::nothing();
    known.namespace = Some(Ok(ObjectMeta::default()));
    known.instance = Some(Ok(HeadscaleInstance {
        spec: HeadscaleInstanceSpec {
            watched_namespaces: vec!["*".to_string()],
            ..Default::default()
        },
        ready: Some(true),
        ..Default::default()
    }));
    known
}

fn registered(state: Secret) -> ProvisionKnown {
    let mut known = past_the_gates();
    known.connected = Some(Ok(()));
    known.retargeted = Some(Ok(()));
    known.rotated = Some(Ok(()));
    known.auth_key = Some(Ok(AuthKeyStatus::Ready));
    known.state = Some(Ok(state));
    known.networking = Some(Ok(ProxyNetworking::NodePort { node_port: 30555 }));
    known.rbac = Some(Ok(()));
    known
}

fn tsnet(known: &ProvisionKnown) -> Step<ProvisionAction> {
    let svc = service(Some("10.43.0.15"), Some(443));
    apply_expose(&svc, &context(), &Ok(annotations(ProxyMode::Tsnet)), known)
}

fn tun(known: &ProvisionKnown) -> Step<ProvisionAction> {
    let svc = service(Some("10.43.0.15"), Some(443));
    apply_expose(&svc, &context(), &Ok(annotations(ProxyMode::Tun)), known)
}

fn warnings<A>(step: &Step<A>) -> Vec<(&'static str, &str)> {
    step.notices
        .iter()
        .filter_map(|n| match n {
            Notice::Warning(w) => Some((w.reason, w.message.as_str())),
            _ => None,
        })
        .collect()
}

#[test]
fn invalid_annotation_ends_exposing() {
    let parsed = Err(AnnotationError::Missing(ANNOTATION_CONFIG));
    let svc = service(None, None);
    let step = apply_expose(&svc, &context(), &parsed, &ProvisionKnown::nothing());
    assert!(matches!(step.action, ProvisionAction::Done(Err(Error::Annotation(_)))));
}

#[test]
fn egress_settings_are_rejected() {
    let mut with_fqdn = annotations(ProxyMode::Tsnet);
    with_fqdn.tailnet_fqdn = Some("x.ts".to_string());
    let mut with_consumers = annotations(ProxyMode::Tsnet);
    with_consumers.consumers =
        vec![EgressConsumer { namespace: "media".to_string(), pods: None }];
    for rejected in [with_fqdn, with_consumers] {
        let svc = service(Some("10.43.0.15"), Some(443));
        let step = apply_expose(&svc, &context(), &Ok(rejected), &past_the_gates());
        assert!(matches!(step.action, ProvisionAction::Done(Ok(Requeue::AwaitChange))));
        assert_eq!(
            warnings(&step),
            vec![(
                "InvalidConfig",
                "'tailnet-fqdn' and 'consumers' do not apply to exposed Services; they configure \
                 egress ExternalName Services"
            )]
        );
    }
}

#[test]
fn ignored_settings_are_warned_about_once() {
    let mut settings = annotations(ProxyMode::Tun);
    settings.host_network = true;
    settings.access =
        vec![IngressAccessGrant { from: vec!["group:eng".to_string()], capabilities: None }];
    let parsed = Ok(settings);
    let svc = service(Some("10.43.0.15"), None);
    let first = apply_expose(&svc, &context(), &parsed, &ProvisionKnown::nothing());
    assert!(matches!(first.action, ProvisionAction::GetNamespace));
    assert_eq!(
        warnings(&first),
        vec![
            (
                "IgnoredConfig",
                "'access' is not supported on exposed Services; grant access to this proxy's tag \
                 in the tailnet ACL instead"
            ),
            (
                "IgnoredConfig",
                "'host-network' does not apply to tun-mode proxies; ignored"
            ),
        ]
    );
    let second = apply_expose(&svc, &context(), &parsed, &past_the_gates());
    assert!(matches!(second.action, ProvisionAction::Connect { .. }));
    assert!(second.notices.is_empty());
}

#[test]
fn nothing_to_forward_is_warned_about() {
    let known = ProvisionKnown::nothing();
    let mut settings = annotations(ProxyMode::Tsnet);
    settings.access =
        vec![IngressAccessGrant { from: vec!["group:eng".to_string()], capabilities: None }];
    let step =
        apply_expose(&service(Some("10.43.0.15"), None), &context(), &Ok(settings), &known);
    assert!(matches!(step.action, ProvisionAction::Done(Ok(Requeue::AwaitChange))));
    assert_eq!(warnings(&step).len(), 2);
    assert_eq!(
        warnings(&step)[1],
        (
            "InvalidConfig",
            "exposed Service declares no TCP ports; add spec.ports so the tsnet proxy knows what \
             to forward"
        )
    );
    for headless in [None, Some("None"), Some("")] {
        let svc = service(headless, Some(443));
        let step = apply_expose(&svc, &context(), &Ok(annotations(ProxyMode::Tun)), &known);
        assert!(matches!(step.action, ProvisionAction::Done(Ok(Requeue::AwaitChange))));
        assert_eq!(
            warnings(&step),
            vec![(
                "InvalidConfig",
                "tun mode requires a ClusterIP to DNAT to; headless Services can only be exposed \
                 in tsnet mode"
            )]
        );
    }
    // A headless Service can be exposed in userspace.
    let svc = service(Some("None"), Some(443));
    let step = apply_expose(&svc, &context(), &Ok(annotations(ProxyMode::Tsnet)), &known);
    assert!(matches!(step.action, ProvisionAction::GetNamespace));
}

#[test]
fn registration_runs_in_order() {
    let mut known = past_the_gates();
    assert!(matches!(tun(&known).action, ProvisionAction::Connect { .. }));
    known.connected = Some(Ok(()));
    assert!(matches!(tun(&known).action, ProvisionAction::ResetIfRetargeted { .. }));
    known.retargeted = Some(Ok(()));
    assert!(matches!(
        tun(&known).action,
        ProvisionAction::RotateStaleKey { expiry_secs: 600 }
    ));
    known.rotated = Some(Ok(()));
    for (step, ephemeral) in [(tun(&known), true), (tsnet(&known), false)] {
        match step.action {
            ProvisionAction::EnsureAuthKey(request) => {
                assert_eq!(request.ephemeral, ephemeral);
                assert_eq!(request.managed_key_tags, vec!["tag:web"]);
                assert!(request.user.is_none() && request.auto_tag.is_none());
            }
            other => panic!("{other:?}"),
        }
    }
    known.auth_key = Some(Ok(AuthKeyStatus::WaitingForUser));
    assert!(matches!(tun(&known).action, ProvisionAction::Done(Ok(Requeue::After(30)))));
    known.auth_key = Some(Ok(AuthKeyStatus::Ready));
    assert!(matches!(
        tun(&known).action,
        ProvisionAction::EnsureState { ref headscale_ref } if headscale_ref == "main"
    ));
}

#[test]
fn host_network_is_for_userspace_proxies_only() {
    let mut known = registered(Secret::default());
    known.networking = None;
    for (mode, expected) in [(ProxyMode::Tsnet, true), (ProxyMode::Tun, false)] {
        let mut settings = annotations(mode);
        settings.host_network = true;
        let svc = service(Some("10.43.0.15"), Some(443));
        let step = apply_expose(&svc, &context(), &Ok(settings), &known);
        assert!(matches!(
            step.action,
            ProvisionAction::ApplyWireguard { host_network, ref forwards }
                if host_network == expected && forwards.is_empty()
        ));
    }
}

#[test]
fn userspace_proxy_dials_the_service_by_name() {
    let mut known = registered(Secret::default());
    known.rbac = None;
    assert!(matches!(tsnet(&known).action, ProvisionAction::ApplyRbac));
    known.rbac = Some(Ok(()));
    match tsnet(&known).action {
        ProvisionAction::ApplyServeConfig { serve_json } => assert_eq!(
            serve_json["TCP"]["443"]["TCPForward"],
            "my-app.default.svc.cluster.local:443"
        ),
        other => panic!("{other:?}"),
    }
    known.serve_config = Some(Ok(()));
    match tsnet(&known).action {
        ProvisionAction::ApplyStatefulSet { login_url, hostname, networking, egress } => {
            assert!(egress.is_none());
            assert_eq!(login_url, "http://headscale-server-main.ops.svc.cluster.local:8080");
            assert_eq!(hostname, "my-app");
            assert_eq!(networking, ProxyNetworking::NodePort { node_port: 30555 });
        }
        other => panic!("{other:?}"),
    }
    known.statefulset = Some(Ok(()));
    assert!(matches!(tsnet(&known).action, ProvisionAction::DeleteNetworkPolicy));
}

#[test]
fn kernel_proxy_targets_the_cluster_ip() {
    let mut known = registered(Secret::default());
    match tun(&known).action {
        ProvisionAction::ApplyTunStatefulSet { dest_ip, node_port, hostname, .. } => {
            assert_eq!(dest_ip, "10.43.0.15");
            assert_eq!(node_port, 30555);
            assert_eq!(hostname, "my-app");
        }
        other => panic!("{other:?}"),
    }
    known.statefulset = Some(Ok(()));
    assert!(matches!(tun(&known).action, ProvisionAction::DeleteServeConfig));
    known.serve_config_deleted = Some(Ok(()));
    assert!(matches!(tun(&known).action, ProvisionAction::DeleteNetworkPolicy));
}

#[test]
fn exposing_ends_with_a_report() {
    let mut data = TextMap::new();
    data.insert("device_id".to_string(), b"3".to_vec());
    data.insert("device_ips".to_string(), br#"["100.64.0.9"]"#.to_vec());
    let mut known = registered(Secret { data: Some(data), ..Default::default() });
    known.serve_config = Some(Ok(()));
    known.statefulset = Some(Ok(()));
    known.network_policy_deleted = Some(Ok(()));
    assert!(matches!(tsnet(&known).action, ProvisionAction::Claim));
    known.claimed = Some(Ok(()));
    assert!(matches!(
        tsnet(&known).action,
        ProvisionAction::SetTags { node_id: 3, ref tags } if *tags == vec!["tag:web".to_string()]
    ));
    known.tagged = Some(Ok(()));
    let done = tsnet(&known);
    assert!(matches!(done.action, ProvisionAction::Done(Ok(Requeue::AwaitChange))));
    assert_eq!(done.notices, vec![Notice::Ready]);
    known.tagged = Some(Err(Status { code: StatusCode::Other, message: String::new() }));
    assert!(matches!(tsnet(&known).action, ProvisionAction::Done(Ok(Requeue::After(30)))));
    known.claimed = Some(Err(server_error()));
    assert!(matches!(tsnet(&known).action, ProvisionAction::Done(Err(Error::Kube(_)))));
}

#[test]
fn unregistered_exposed_proxy_is_warned_about() {
    let mut known = registered(Secret::default());
    known.serve_config = Some(Ok(()));
    known.statefulset = Some(Ok(()));
    known.network_policy_deleted = Some(Ok(()));
    known.claimed = Some(Ok(()));
    let done = tsnet(&known);
    assert!(matches!(done.action, ProvisionAction::Done(Ok(Requeue::AwaitChange))));
    let names = ProxyNames::for_service("default", "my-app");
    let expected = format!(
        "proxy for exposed Service 'my-app' has not registered with headscale; if this persists \
         beyond the auth-key expiry window, delete the Secret '{}' to force key rotation",
        names.config_secret_name
    );
    assert_eq!(warnings(&done), vec![("ProxyNotRegistered", expected.as_str())]);
}

#[test]
fn failures_end_exposing() {
    let mut known = registered(Secret::default());
    known.network_policy_deleted = Some(Err(Error::UnnamedObject));
    known.serve_config = Some(Ok(()));
    known.statefulset = Some(Ok(()));
    known.serve_config_deleted = Some(Err(Error::MissingNamespace));
    assert!(matches!(tsnet(&known).action, ProvisionAction::Done(Err(Error::UnnamedObject))));
    assert!(matches!(tun(&known).action, ProvisionAction::Done(Err(Error::MissingNamespace))));
    known.rotated = Some(Err(Error::Kube(server_error())));
    assert!(matches!(tun(&known).action, ProvisionAction::Done(Err(Error::Kube(_)))));
    known.retargeted = Some(Err(Error::NodePortNotAssigned));
    assert!(matches!(
        tun(&known).action,
        ProvisionAction::Done(Err(Error::NodePortNotAssigned))
    ));
}
