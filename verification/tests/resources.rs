use headmaster::annotations::EgressConsumer;
use headmaster::auth_key::extract_auth_key;
use headmaster::error::{Error, KubeError};
use headmaster::names::ProxyNames;
use headmaster::objects::{IntOrString, Service, ServicePort, ServiceSpec};
use headmaster::resources::{
    apply_wireguard_service, build_proxy_statefulset, build_statefulset, config_secret,
    consumers_policy, peers_of, proxy_role, proxy_role_binding, proxy_service_account,
    serve_configmap, state_secret, wireguard_service, Egress, ProxyNetworking, WireguardAction,
    WireguardKnown,
};
use headmaster::support::{proxy_resources, read_secret_string, ResourceKind};
use headmaster::textmap::TextMap;
use headmaster::workload::{
    ConfigMapVolumeSource, EnvVar, PodSpec, StatefulSet, Volume, VolumeExt,
};

fn not_found() -> KubeError {
    KubeError { api_code: Some(404), text: "not found".to_string() }
}

fn server_error() -> KubeError {
    KubeError { api_code: Some(500), text: "server error".to_string() }
}

fn make_proxy_statefulset(names: &ProxyNames, networking: &ProxyNetworking) -> StatefulSet {
    build_proxy_statefulset(
        names,
        "tailscale/tailscale:stable",
        "https://headscale.example.com",
        "my-app",
        networking,
    )
}

fn pod_spec_of(sts: &StatefulSet) -> &PodSpec {
    sts.spec.as_ref().unwrap().template.spec.as_ref().expect("pod spec must be set")
}

fn env_of<'a>(sts: &'a StatefulSet, name: &str) -> Option<&'a EnvVar> {
    pod_spec_of(sts)
        .containers
        .iter()
        .find(|c| c.name == "proxy")
        .unwrap()
        .env
        .as_ref()
        .unwrap()
        .iter()
        .find(|e| e.name == name)
}

#[test]
fn apply_wireguard_service_errors_when_nodeport_absent() {
    let without_node_port = || Service {
        spec: Some(ServiceSpec {
            type_: Some("NodePort".to_string()),
            ports: Some(vec![ServicePort {
                port: 41641,
                protocol: Some("UDP".to_string()),
                ..Default::default()
            }]),
            ..Default::default()
        }),
        ..Default::default()
    };
    let mut known = WireguardKnown::nothing();
    assert!(matches!(apply_wireguard_service(&known, false), WireguardAction::GetCurrent));
    known.current = Some(Ok(without_node_port()));
    assert!(matches!(apply_wireguard_service(&known, false), WireguardAction::Apply));
    known.applied = Some(Ok(()));
    assert!(matches!(apply_wireguard_service(&known, false), WireguardAction::GetLive));
    known.live = Some(Ok(without_node_port()));
    assert!(
        matches!(
            apply_wireguard_service(&known, false),
            WireguardAction::Done(Err(Error::NodePortNotAssigned))
        ),
        "must return NodePortNotAssigned when the Service has no nodePort assigned"
    );
}

#[test]
fn proxy_statefulset_has_service_name() {
    let names = ProxyNames::new("default", "my-app");
    let sts = make_proxy_statefulset(&names, &ProxyNetworking::NodePort { node_port: 30123 });
    assert_eq!(
        sts.spec.as_ref().unwrap().service_name.as_deref(),
        Some(names.wg_service_name.as_str()),
        "proxy StatefulSet must have spec.serviceName set"
    );
}

#[test]
fn proxy_statefulset_has_seccomp_profile() {
    let names = ProxyNames::new("default", "my-app");
    let sts = make_proxy_statefulset(&names, &ProxyNetworking::NodePort { node_port: 30123 });
    let pod_sec = pod_spec_of(&sts)
        .security_context
        .as_ref()
        .expect("pod security_context must be set");
    assert_eq!(
        pod_sec.seccomp_profile.as_ref().map(|p| p.type_.as_str()),
        Some("RuntimeDefault"),
        "proxy pod must use RuntimeDefault seccomp profile"
    );
}

#[test]
fn proxy_statefulset_container_disallows_privilege_escalation() {
    let names = ProxyNames::new("default", "my-app");
    let sts = make_proxy_statefulset(&names, &ProxyNetworking::NodePort { node_port: 30123 });
    let proxy = pod_spec_of(&sts).containers.iter().find(|c| c.name == "proxy").unwrap();
    assert_eq!(
        proxy.security_context.as_ref().and_then(|s| s.allow_privilege_escalation),
        Some(false),
        "proxy container must have allowPrivilegeEscalation=false"
    );
}

#[test]
fn proxy_statefulset_nodeport_mode_advertises_node_endpoint() {
    let names = ProxyNames::new("default", "my-app");
    let sts = make_proxy_statefulset(&names, &ProxyNetworking::NodePort { node_port: 30123 });
    assert!(
        pod_spec_of(&sts).host_network.is_none(),
        "NodePort mode must not set hostNetwork"
    );
    assert_eq!(
        env_of(&sts, "NODE_PORT").and_then(|e| e.value.as_deref()),
        Some("30123"),
        "NodePort mode must pass the assigned nodePort to the pod"
    );
    assert!(
        env_of(&sts, "TS_DEBUG_PRETENDPOINT").is_some(),
        "NodePort mode must advertise the node endpoint via TS_DEBUG_PRETENDPOINT"
    );
    assert_eq!(
        env_of(&sts, "TS_TAILSCALED_EXTRA_ARGS").and_then(|e| e.value.as_deref()),
        Some("--port=41641 --socket=/tmp/tailscaled.sock"),
        "NodePort mode must pin tailscaled to the NodePort Service targetPort"
    );
}

#[test]
fn proxy_statefulset_host_mode_uses_host_network() {
    let names = ProxyNames::new("default", "my-app");
    let sts = make_proxy_statefulset(&names, &ProxyNetworking::Host);
    let spec = pod_spec_of(&sts);
    assert_eq!(
        spec.host_network,
        Some(true),
        "Host mode must set hostNetwork on the pod"
    );
    assert_eq!(
        spec.dns_policy.as_deref(),
        Some("ClusterFirstWithHostNet"),
        "Host mode must keep cluster DNS so serve.json backends resolve"
    );
    for var in ["NODE_IP", "NODE_PORT", "TS_DEBUG_PRETENDPOINT"] {
        assert!(
            env_of(&sts, var).is_none(),
            "Host mode must not set {var}: endpoints are discovered natively"
        );
    }
    assert_eq!(
        env_of(&sts, "TS_TAILSCALED_EXTRA_ARGS").and_then(|e| e.value.as_deref()),
        Some("--port=0 --socket=/tmp/tailscaled.sock"),
        "Host mode must auto-select the UDP port; 41641 belongs to the node's tailscaled"
    );
}

#[test]
fn proxy_container_gets_its_settings_from_the_environment() {
    let names = ProxyNames::new("default", "my-app");
    let sts = make_proxy_statefulset(&names, &ProxyNetworking::NodePort { node_port: 1 });
    let key = env_of(&sts, "TS_AUTHKEY").unwrap().secret_key_ref.as_ref().unwrap();
    assert_eq!((key.name.as_str(), key.key.as_str()), (names.config_secret_name.as_str(), "key"));
    assert_eq!(
        env_of(&sts, "TS_EXTRA_ARGS").and_then(|e| e.value.as_deref()),
        Some(
            "--login-server=https://headscale.example.com --advertise-exit-node=false \
             --snat-subnet-routes=false --stateful-filtering=false"
        )
    );
    assert_eq!(
        env_of(&sts, "TS_KUBE_SECRET").and_then(|e| e.value.as_deref()),
        Some(names.state_secret_name.as_str())
    );
    assert_eq!(
        env_of(&sts, "NODE_IP").and_then(|e| e.field_ref.as_deref()),
        Some("status.hostIP")
    );
    assert_eq!(sts.metadata.name.as_deref(), Some(names.proxy_name.as_str()));
    let pod = pod_spec_of(&sts);
    let mount = &pod.containers[0].volume_mounts.as_ref().unwrap()[0];
    assert_eq!(
        (mount.name.as_str(), mount.mount_path.as_str(), mount.read_only),
        ("serve-config", "/etc/serve", Some(true))
    );
    let volume = &pod.volumes.as_ref().unwrap()[0];
    assert_eq!(volume.config_map.as_ref().unwrap().name, names.serve_configmap_name);
    assert_eq!(pod.service_account_name.as_deref(), Some(names.proxy_name.as_str()));
    assert_eq!(
        pod.containers[0].security_context.as_ref().unwrap().drop_capabilities,
        Some(vec!["ALL".to_string()])
    );
}

#[test]
fn volumes_hold_one_thing() {
    let map = Volume::configmap("v", ConfigMapVolumeSource { name: "cm".to_string() });
    assert_eq!((map.name.as_str(), map.config_map.unwrap().name.as_str()), ("v", "cm"));
    let empty = Volume::emptydir("e");
    assert!(empty.empty_dir.is_some() && empty.config_map.is_none() && empty.host_path.is_none());
    let host = Volume::hostpath("h", "/dev/net/tun", "CharDevice").host_path.unwrap();
    assert_eq!((host.path.as_str(), host.type_.as_deref()), ("/dev/net/tun", Some("CharDevice")));
}

#[test]
fn wireguard_service_has_the_shape_of_its_network() {
    let names = ProxyNames::for_service("a", "b");
    let pod = wireguard_service(&names, false, &vec![]).spec.unwrap();
    assert_eq!(pod.type_.as_deref(), Some("NodePort"));
    assert_eq!(pod.external_traffic_policy.as_deref(), Some("Local"));
    assert_eq!(pod.ports.unwrap()[0].target_port, Some(IntOrString::Int(41641)));
    let host = wireguard_service(&names, true, &vec![]);
    assert_eq!(host.metadata.name.as_deref(), Some(names.wg_service_name.as_str()));
    let spec = host.spec.unwrap();
    assert_eq!(spec.cluster_ip.as_deref(), Some("None"));
    assert!(spec.type_.is_none());
    assert_eq!(spec.ports.unwrap()[0].protocol.as_deref(), Some("UDP"));
}

#[test]
fn toggling_the_network_recreates_the_service() {
    let names = ProxyNames::for_service("a", "b");
    let mut known = WireguardKnown::nothing();
    known.current = Some(Ok(wireguard_service(&names, true, &vec![])));
    assert!(matches!(apply_wireguard_service(&known, true), WireguardAction::Apply));
    assert!(matches!(apply_wireguard_service(&known, false), WireguardAction::DeleteCurrent));
    known.deleted = Some(Err(Error::Kube(server_error())));
    assert!(matches!(
        apply_wireguard_service(&known, false),
        WireguardAction::Done(Err(Error::Kube(_)))
    ));
    known.deleted = Some(Ok(()));
    assert!(matches!(apply_wireguard_service(&known, false), WireguardAction::Apply));
}

#[test]
fn wireguard_networking_is_read_back() {
    let mut known = WireguardKnown::nothing();
    known.current = Some(Err(not_found()));
    known.applied = Some(Ok(()));
    assert!(matches!(
        apply_wireguard_service(&known, true),
        WireguardAction::Done(Ok(ProxyNetworking::Host))
    ));
    known.live = Some(Ok(Service {
        spec: Some(ServiceSpec {
            ports: Some(vec![ServicePort { node_port: Some(31000), ..Default::default() }]),
            ..Default::default()
        }),
        ..Default::default()
    }));
    assert!(matches!(
        apply_wireguard_service(&known, false),
        WireguardAction::Done(Ok(ProxyNetworking::NodePort { node_port: 31000 }))
    ));
    known.live = Some(Err(server_error()));
    assert!(matches!(
        apply_wireguard_service(&known, false),
        WireguardAction::Done(Err(Error::Kube(_)))
    ));
    known.applied = Some(Err(Error::MissingNamespace));
    assert!(matches!(
        apply_wireguard_service(&known, false),
        WireguardAction::Done(Err(Error::MissingNamespace))
    ));
    known.current = Some(Err(server_error()));
    assert!(matches!(
        apply_wireguard_service(&known, false),
        WireguardAction::Done(Err(Error::Kube(_)))
    ));
}

#[test]
fn secrets_give_back_what_was_put_in() {
    let names = ProxyNames::for_service("a", "b");
    let config = config_secret(&names, "hskey-é");
    assert_eq!(config.metadata.name.as_deref(), Some(names.config_secret_name.as_str()));
    assert_eq!(extract_auth_key(&config).as_deref(), Some("hskey-é"));
    assert!(extract_auth_key(&config_secret(&names, "")).is_none());
    let state = state_secret(&names, "main");
    assert_eq!(state.metadata.name.as_deref(), Some(names.state_secret_name.as_str()));
    assert_eq!(read_secret_string(&state, "headscale_ref").as_deref(), Some("main"));
    assert_eq!(state.data.unwrap().entries().len(), 1);
}

#[test]
fn serve_config_is_printed_over_several_lines() {
    let names = ProxyNames::for_service("a", "b");
    let json: serde_json::Value = serde_json::from_str(r#"{"TCP":{"80":{}}}"#).unwrap();
    let config_map = serve_configmap(&names, &json);
    assert_eq!(config_map.metadata.name.as_deref(), Some(names.serve_configmap_name.as_str()));
    assert_eq!(
        config_map.data.unwrap().get("serve.json").unwrap(),
        "{\n  \"TCP\": {\n    \"80\": {}\n  }\n}"
    );
}

#[test]
fn proxy_may_keep_its_own_state_only() {
    let names = ProxyNames::for_service("a", "b");
    let role = proxy_role(&names);
    let rules = role.rules.unwrap();
    assert_eq!(rules.len(), 2);
    assert_eq!(rules[0].resource_names, Some(vec![names.state_secret_name.clone()]));
    assert_eq!(rules[0].verbs, vec!["get", "update", "patch"]);
    assert_eq!(rules[1].resources, Some(vec!["events".to_string()]));
    assert_eq!(rules[1].verbs, vec!["create", "patch"]);
    let binding = proxy_role_binding(&names, "ops");
    assert_eq!(binding.role_ref.name, names.proxy_name);
    assert_eq!(binding.role_ref.kind, "Role");
    let subjects = binding.subjects.unwrap();
    assert_eq!(subjects[0].kind, "ServiceAccount");
    assert_eq!(subjects[0].namespace.as_deref(), Some("ops"));
    let account = proxy_service_account(&names);
    assert_eq!(account.metadata.name.as_deref(), Some(names.proxy_name.as_str()));
}

#[test]
fn egress_service_has_a_port_for_each_forward() {
    let names = ProxyNames::for_service("a", "b");
    let svc = wireguard_service(&names, false, &vec![(443, 8443), (22, 22)]);
    let ports = svc.spec.unwrap().ports.unwrap();
    assert_eq!(ports.len(), 3);
    assert_eq!(ports[0].name.as_deref(), Some("wireguard"), "its node port is read back");
    for (port, listen) in ports[1..].iter().zip([443, 22]) {
        assert_eq!(port.name, Some(format!("forward-{listen}")));
        assert_eq!(port.protocol.as_deref(), Some("TCP"));
        assert_eq!(port.port, listen);
        assert_eq!(port.target_port, Some(IntOrString::Int(listen)));
        assert!(port.node_port.is_none());
    }
}

#[test]
fn egress_pod_has_a_forwarder_for_each_forward() {
    let names = ProxyNames::for_service("a", "b");
    let egress = Egress {
        image: "alpine/socat".to_string(),
        host: "qbittorrent.ts.example.com".to_string(),
        forwards: vec![(443, 8443), (22, 22)],
    };
    let networking = ProxyNetworking::NodePort { node_port: 30123 };
    let sts = build_statefulset(
        &names,
        "tailscale/tailscale:stable",
        "https://headscale.example.com",
        "egress-qbittorrent",
        &networking,
        &Some(egress),
    );
    let listener = env_of(&sts, "TS_SOCKS5_SERVER").unwrap();
    assert_eq!(listener.value.as_deref(), Some("localhost:1055"));
    let containers = &pod_spec_of(&sts).containers;
    assert_eq!(containers.len(), 3);
    assert_eq!(containers[0].name, "proxy");
    assert_eq!(containers[1].name, "forward-443");
    assert_eq!(containers[1].image.as_deref(), Some("alpine/socat"));
    assert_eq!(
        containers[1].args,
        Some(vec![
            "TCP-LISTEN:443,fork,reuseaddr".to_string(),
            "SOCKS5-CONNECT:localhost:1055:qbittorrent.ts.example.com:8443".to_string(),
        ])
    );
    assert_eq!(containers[2].name, "forward-22");
    let plain = make_proxy_statefulset(&names, &networking);
    assert!(env_of(&plain, "TS_SOCKS5_SERVER").is_none());
    assert_eq!(pod_spec_of(&plain).containers.len(), 1);
}

#[test]
fn consumers_policy_guards_the_proxy_pods() {
    let names = ProxyNames::for_service("a", "b");
    let pod_labels = TextMap::with("app", names.proxy_name.clone());
    let consumers = vec![
        EgressConsumer { namespace: "media".to_string(), pods: None },
        EgressConsumer {
            namespace: "media".to_string(),
            pods: Some(TextMap::with("app", "radarr".to_string())),
        },
    ];
    let policy = consumers_policy(&names, &pod_labels, peers_of(&consumers));
    assert_eq!(policy.metadata.name.as_deref(), Some(names.proxy_name.as_str()));
    let spec = policy.spec.unwrap();
    assert_eq!(spec.pod_selector.match_labels, Some(pod_labels));
    assert_eq!(spec.policy_types, Some(vec!["Ingress".to_string()]));
    let rules = spec.ingress.unwrap();
    assert_eq!(rules.len(), 1);
    let peers = rules[0].from.as_ref().unwrap();
    assert_eq!(peers.len(), 2);
    for peer in peers {
        assert_eq!(
            peer.namespace_selector.match_labels,
            Some(TextMap::with("kubernetes.io/metadata.name", "media".to_string()))
        );
    }
    assert_eq!(peers[0].pod_selector.match_labels, None);
    assert_eq!(
        peers[1].pod_selector.match_labels,
        Some(TextMap::with("app", "radarr".to_string()))
    );
    assert!(peers_of(&vec![]).is_empty());
}

#[test]
fn teardown_lists_every_resource() {
    let names = ProxyNames::for_service("a", "b");
    let resources = proxy_resources(&names);
    assert_eq!(resources.len(), 9);
    for expected in [
        (ResourceKind::StatefulSet, &names.proxy_name),
        (ResourceKind::Service, &names.wg_service_name),
        (ResourceKind::Secret, &names.config_secret_name),
        (ResourceKind::Secret, &names.state_secret_name),
        (ResourceKind::ConfigMap, &names.serve_configmap_name),
        (ResourceKind::NetworkPolicy, &names.proxy_name),
        (ResourceKind::RoleBinding, &names.proxy_name),
        (ResourceKind::Role, &names.proxy_name),
        (ResourceKind::ServiceAccount, &names.proxy_name),
    ] {
        assert!(resources.iter().any(|(kind, name)| *kind == expected.0 && name == expected.1));
    }
}
