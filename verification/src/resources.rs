//! The Kubernetes resources that every proxy consists of: the WireGuard
//! Service, the Secrets, the serve ConfigMap, the RBAC objects and the
//! StatefulSet; and the policy that keeps others than its consumers away from
//! an egress proxy. What the proxy serves comes from the parent.

use crate::annotations::EgressConsumer;
use crate::auth_key::auth_key_in;
use crate::error::{Error, KubeError};
use crate::json::{json_of, pretty, pretty_json, Json};
use crate::names::ProxyNames;
use crate::objects::{
    ports_of, text_of, texts_of, ConfigMap, IntOrString, ObjectMeta, Secret, Service, ServicePort,
    ServiceSpec,
};
use crate::sort::views;
use crate::support::{resources_of, secret_text, ResourceKind};
use crate::text::{decimal, decimal_i32, join2, join3, join5, same_text};
use crate::textmap::TextMap;
use crate::workload::{
    env_field, env_secret, env_value, labels_of, lets_through, list_of, selects, ConfigMapVolumeSource,
    Container, EnvVar, EnvVarView, LabelSelector, NetworkPolicy, NetworkPolicyIngressRule,
    NetworkPolicyPeer, NetworkPolicySpec, PeerView, PodSecurityContext, PodSpec, PodTemplateSpec,
    PolicyRule, PolicyRuleView, Role, RoleBinding, RoleRef, SeccompProfile, SecurityContext,
    ServiceAccount, StatefulSet, StatefulSetSpec, Subject, Volume, VolumeExt, VolumeMount,
    VolumeView,
};
use vstd::prelude::*;
use vstd::string::*;
use vstd::utf8::*;

verus! {

/// Port of the WireGuard socket in a proxy pod.
pub const WIREGUARD_POD_PORT: i32 = 41641;

pub const SERVE_CONFIG_MOUNT: &'static str = "/etc/serve";

pub const SERVE_CONFIG_PATH: &'static str = "/etc/serve/serve.json";

/// Component name of everything that belongs to a proxy.
pub const PROXY_COMPONENT: &'static str = "tailscale-proxy";

// ---- the WireGuard Service ----

/// How peers reach the WireGuard socket of a proxy.
#[derive(Debug, Clone, Copy, PartialEq, Eq, Structural)]
pub enum ProxyNetworking {
    /// On the pod network, through a port of the node.
    NodePort { node_port: i32 },
    /// On the network of the node itself.
    Host,
}

/// Whether a Service is headless.
pub open spec fn headless(svc: Service) -> bool {
    svc.spec is Some && text_of(svc.spec->0.cluster_ip) == Some("None"@)
}

fn is_headless(svc: &Service) -> (result: bool)
    ensures
        result == headless(*svc),
{
    match &svc.spec {
        Some(spec) => match &spec.cluster_ip {
            Some(ip) => same_text(ip.as_str(), "None"),
            None => false,
        },
        None => false,
    }
}

/// The node port of the first port of a Service.
pub open spec fn first_node_port(svc: Service) -> Option<i32> {
    if ports_of(svc).len() > 0 {
        ports_of(svc)[0].node_port
    } else {
        None
    }
}

/// The name of what forwards a port: of the port of the Service, and of the
/// container.
pub open spec fn forward_name(listen: int) -> Seq<char> {
    "forward-"@ + decimal(listen)
}

/// Whether `port` leads to a port of the same number of the pod.
pub open spec fn is_forward_port(port: ServicePort, listen: i32) -> bool {
    &&& text_of(port.name) == Some(forward_name(listen as int))
    &&& text_of(port.protocol) == Some("TCP"@)
    &&& port.port == listen
    &&& port.target_port == Some(IntOrString::Int(listen))
    &&& port.node_port is None
}

/// Whether `svc` is the WireGuard Service of a proxy. On the host network it
/// is headless, and only there for the StatefulSet to refer to; on the pod
/// network it gives the socket a port of the node. Behind the socket it has a
/// TCP port for each of `forwards`: those of an egress proxy, which pods reach
/// through it.
pub open spec fn is_wireguard_service(
    svc: Service,
    name: Seq<char>,
    host_network: bool,
    forwards: Seq<(i32, i32)>,
) -> bool {
    &&& svc.metadata.is_named(name)
    &&& svc.spec is Some
    &&& svc.spec->0.external_name is None
    &&& svc.spec->0.ports is Some
    &&& svc.spec->0.ports->0@.len() == 1 + forwards.len()
    &&& forall|i: int|
        1 <= i < svc.spec->0.ports->0@.len() ==> is_forward_port(
            #[trigger] svc.spec->0.ports->0@[i],
            forwards[i - 1].0,
        )
    &&& text_of(svc.spec->0.ports->0@[0].name) == Some("wireguard"@)
    &&& text_of(svc.spec->0.ports->0@[0].protocol) == Some("UDP"@)
    &&& svc.spec->0.ports->0@[0].port == WIREGUARD_POD_PORT
    &&& svc.spec->0.ports->0@[0].node_port is None
    &&& if host_network {
        &&& svc.spec->0.type_ is None
        &&& text_of(svc.spec->0.cluster_ip) == Some("None"@)
        &&& svc.spec->0.external_traffic_policy is None
        &&& svc.spec->0.ports->0@[0].target_port is None
    } else {
        &&& text_of(svc.spec->0.type_) == Some("NodePort"@)
        &&& svc.spec->0.cluster_ip is None
        &&& text_of(svc.spec->0.external_traffic_policy) == Some("Local"@)
        &&& svc.spec->0.ports->0@[0].target_port == Some(IntOrString::Int(WIREGUARD_POD_PORT))
    }
}

/// Builds the WireGuard Service of a proxy, with a port for each of the
/// forwards of an egress proxy.
pub fn wireguard_service(names: &ProxyNames, host_network: bool, forwards: &Vec<(i32, i32)>) -> (svc:
    Service)
    ensures
        is_wireguard_service(svc, names.wg_service_name@, host_network, forwards@),
        headless(svc) == host_network,
{
    let target_port = if host_network {
        None
    } else {
        Some(IntOrString::Int(WIREGUARD_POD_PORT))
    };
    let mut ports: Vec<ServicePort> = Vec::new();
    ports.push(
        ServicePort {
            name: Some(String::from_str("wireguard")),
            port: WIREGUARD_POD_PORT,
            protocol: Some(String::from_str("UDP")),
            target_port,
            node_port: None,
        },
    );
    let ghost socket = ports@[0];
    let mut i: usize = 0;
    while i < forwards.len()
        invariant
            i <= forwards@.len(),
            ports@.len() == i + 1,
            ports@[0] == socket,
            forall|k: int|
                1 <= k <= i ==> is_forward_port(#[trigger] ports@[k], forwards@[k - 1].0),
        decreases forwards@.len() - i,
    {
        let listen: i32 = forwards[i].0;
        ports.push(
            ServicePort {
                name: Some(join2("forward-", decimal_i32(listen).as_str())),
                port: listen,
                protocol: Some(String::from_str("TCP")),
                target_port: Some(IntOrString::Int(listen)),
                node_port: None,
            },
        );
        i = i + 1;
    }
    let spec = if host_network {
        ServiceSpec {
            type_: None,
            external_name: None,
            cluster_ip: Some(String::from_str("None")),
            external_traffic_policy: None,
            ports: Some(ports),
        }
    } else {
        ServiceSpec {
            type_: Some(String::from_str("NodePort")),
            external_name: None,
            cluster_ip: None,
            external_traffic_policy: Some(String::from_str("Local")),
            ports: Some(ports),
        }
    };
    Service { metadata: ObjectMeta::named(names.wg_service_name.as_str()), spec: Some(spec) }
}

/// What is known while the WireGuard Service is applied.
#[derive(Debug)]
pub struct WireguardKnown {
    /// The Service as it is.
    pub current: Option<Result<Service, KubeError>>,
    /// Whether the Service of the other shape was deleted.
    pub deleted: Option<Result<(), Error>>,
    pub applied: Option<Result<(), Error>>,
    /// The Service after it was applied.
    pub live: Option<Result<Service, KubeError>>,
}

impl WireguardKnown {
    /// Nothing is known.
    pub fn nothing() -> (known: Self)
        ensures
            known == (WireguardKnown { current: None, deleted: None, applied: None, live: None }),
    {
        WireguardKnown { current: None, deleted: None, applied: None, live: None }
    }
}

/// What applying the WireGuard Service asks for.
#[derive(Debug)]
pub enum WireguardAction {
    GetCurrent,
    DeleteCurrent,
    /// Apply what `wireguard_service` builds.
    Apply,
    GetLive,
    Done(Result<ProxyNetworking, Error>),
}

/// The Service is applied and, where it gives the socket a port of the node,
/// read back for the port.
pub open spec fn wireguard_apply_step(known: WireguardKnown, host_network: bool) -> WireguardAction {
    match known.applied {
        None => WireguardAction::Apply,
        Some(Err(e)) => WireguardAction::Done(Err(e)),
        Some(Ok(())) => if host_network {
            WireguardAction::Done(Ok(ProxyNetworking::Host))
        } else {
            match known.live {
                None => WireguardAction::GetLive,
                Some(Err(e)) => WireguardAction::Done(Err(Error::Kube(e))),
                Some(Ok(svc)) => match first_node_port(svc) {
                    Some(node_port) => WireguardAction::Done(
                        Ok(ProxyNetworking::NodePort { node_port }),
                    ),
                    None => WireguardAction::Done(Err(Error::NodePortNotAssigned)),
                },
            }
        },
    }
}

/// How the WireGuard Service is applied. A cluster IP cannot be changed, so a
/// Service of the other shape is deleted first.
pub open spec fn wireguard_step(known: WireguardKnown, host_network: bool) -> WireguardAction {
    match known.current {
        None => WireguardAction::GetCurrent,
        Some(Err(e)) => if e.not_found() {
            wireguard_apply_step(known, host_network)
        } else {
            WireguardAction::Done(Err(Error::Kube(e)))
        },
        Some(Ok(svc)) => if headless(svc) == host_network {
            wireguard_apply_step(known, host_network)
        } else {
            match known.deleted {
                None => WireguardAction::DeleteCurrent,
                Some(Err(e)) => WireguardAction::Done(Err(e)),
                Some(Ok(())) => wireguard_apply_step(known, host_network),
            }
        },
    }
}

fn node_port_of(svc: &Service) -> (node_port: Option<i32>)
    ensures
        node_port == first_node_port(*svc),
{
    match &svc.spec {
        Some(spec) => match &spec.ports {
            Some(ports) => if ports.len() > 0 {
                ports[0].node_port
            } else {
                None
            },
            None => None,
        },
        None => None,
    }
}

fn wireguard_apply(known: &WireguardKnown, host_network: bool) -> (action: WireguardAction)
    ensures
        action == wireguard_apply_step(*known, host_network),
{
    match &known.applied {
        None => WireguardAction::Apply,
        Some(Err(e)) => WireguardAction::Done(Err(e.clone())),
        Some(Ok(())) => if host_network {
            WireguardAction::Done(Ok(ProxyNetworking::Host))
        } else {
            match &known.live {
                None => WireguardAction::GetLive,
                Some(Err(e)) => WireguardAction::Done(Err(Error::Kube(e.clone()))),
                Some(Ok(svc)) => match node_port_of(svc) {
                    Some(node_port) => WireguardAction::Done(
                        Ok(ProxyNetworking::NodePort { node_port }),
                    ),
                    None => WireguardAction::Done(Err(Error::NodePortNotAssigned)),
                },
            }
        },
    }
}

/// Decides the next step of applying the WireGuard Service.
pub fn apply_wireguard_service(known: &WireguardKnown, host_network: bool) -> (action:
    WireguardAction)
    ensures
        action == wireguard_step(*known, host_network),
{
    match &known.current {
        None => WireguardAction::GetCurrent,
        Some(Err(e)) => if e.is_not_found() {
            wireguard_apply(known, host_network)
        } else {
            WireguardAction::Done(Err(Error::Kube(e.clone())))
        },
        Some(Ok(svc)) => if is_headless(svc) == host_network {
            wireguard_apply(known, host_network)
        } else {
            match &known.deleted {
                None => WireguardAction::DeleteCurrent,
                Some(Err(e)) => WireguardAction::Done(Err(e.clone())),
                Some(Ok(())) => wireguard_apply(known, host_network),
            }
        },
    }
}

/// A Service that exists in the other shape is deleted before it is applied,
/// and no other is: changing the network of a live proxy recreates it.
pub proof fn other_shape_is_recreated(known: WireguardKnown, host_network: bool)
    ensures
        ({
            let other_shape = known.current is Some && known.current->0 is Ok && headless(
                known.current->0->Ok_0,
            ) != host_network;
            let action = wireguard_step(known, host_network);
            &&& action is DeleteCurrent <==> other_shape && known.deleted is None
            &&& action is Apply && other_shape ==> known.deleted is Some && known.deleted->0 is Ok
        }),
{
}

/// Nothing is asked for that is known already, so that applying the Service
/// comes to an end.
pub proof fn wireguard_asks_once(known: WireguardKnown, host_network: bool)
    ensures
        ({
            let action = wireguard_step(known, host_network);
            &&& action is GetCurrent ==> known.current is None
            &&& action is DeleteCurrent ==> known.deleted is None
            &&& action is Apply ==> known.applied is None
            &&& action is GetLive ==> known.live is None
        }),
{
}

/// Applying the Service that the operator builds never leads to a deletion on
/// the next run: a Service of the right shape is left in place.
pub proof fn applied_service_is_kept(
    known: WireguardKnown,
    svc: Service,
    name: Seq<char>,
    host_network: bool,
    forwards: Seq<(i32, i32)>,
)
    requires
        is_wireguard_service(svc, name, host_network, forwards),
        known.current == Some(Ok::<Service, KubeError>(svc)),
    ensures
        wireguard_step(known, host_network) !is DeleteCurrent,
{
}

/// The proxy is on the host network exactly where that was asked for.
pub proof fn networking_is_as_asked(
    known: WireguardKnown,
    host_network: bool,
    networking: ProxyNetworking,
)
    requires
        wireguard_step(known, host_network) == WireguardAction::Done(
            Ok::<ProxyNetworking, Error>(networking),
        ),
    ensures
        (networking == ProxyNetworking::Host) == host_network,
{
}

// ---- Secrets and the ConfigMap ----

/// Whether `secret` is named `name` and holds `bytes` under `key`, and nothing
/// else.
pub open spec fn is_single_secret(
    secret: Secret,
    name: Seq<char>,
    key: Seq<char>,
    bytes: Seq<u8>,
) -> bool {
    &&& secret.metadata.is_named(name)
    &&& secret.data is Some
    &&& secret.data->0@.dom() == set![key]
    &&& secret.data->0@[key]@ == bytes
}

fn single_secret(name: &str, key: &str, text: &str) -> (secret: Secret)
    ensures
        is_single_secret(secret, name@, key@, encode_utf8(text@)),
        secret_text(secret, key@) == Some(text@),
{
    let bytes = text.as_bytes_vec();
    let data = TextMap::with(key, bytes);
    proof {
        assert(data@.dom() =~= set![key@]);
        encode_utf8_valid_utf8(text@);
        encode_utf8_decode_utf8(text@);
    }
    Secret { metadata: ObjectMeta::named(name), data: Some(data) }
}

/// Builds the Secret that hands the auth key to the proxy. Reading the key
/// back gives it, where it is not empty.
pub fn config_secret(names: &ProxyNames, auth_key: &str) -> (secret: Secret)
    ensures
        is_single_secret(secret, names.config_secret_name@, "key"@, encode_utf8(auth_key@)),
        auth_key@.len() > 0 ==> auth_key_in(secret) == Some(auth_key@),
        auth_key@.len() == 0 ==> auth_key_in(secret) is None,
{
    single_secret(names.config_secret_name.as_str(), "key", auth_key)
}

/// Builds the Secret in which the proxy keeps its state, with the instance
/// that it registers with. Reading the instance back gives it.
pub fn state_secret(names: &ProxyNames, headscale_ref: &str) -> (secret: Secret)
    ensures
        is_single_secret(
            secret,
            names.state_secret_name@,
            "headscale_ref"@,
            encode_utf8(headscale_ref@),
        ),
        secret_text(secret, "headscale_ref"@) == Some(headscale_ref@),
{
    single_secret(names.state_secret_name.as_str(), "headscale_ref", headscale_ref)
}

/// Whether `config_map` is named `name` and holds a serve config, printed, and
/// nothing else.
pub open spec fn is_serve_configmap(config_map: ConfigMap, name: Seq<char>, serve_json: Json) -> bool {
    &&& config_map.metadata.is_named(name)
    &&& config_map.data is Some
    &&& config_map.data->0@.dom() == set!["serve.json"@]
    &&& config_map.data->0@["serve.json"@]@ == pretty_json(serve_json)
}

/// Builds the ConfigMap with the serve config, printed for people to read.
pub fn serve_configmap(names: &ProxyNames, serve_json: &serde_json::Value) -> (config_map: ConfigMap)
    ensures
        is_serve_configmap(config_map, names.serve_configmap_name@, json_of(*serve_json)),
{
    let data = TextMap::with("serve.json", pretty(serve_json));
    proof {
        assert(data@.dom() =~= set!["serve.json"@]);
    }
    ConfigMap {
        metadata: ObjectMeta::named(names.serve_configmap_name.as_str()),
        data: Some(data),
    }
}

// ---- RBAC ----

/// What a proxy may do: keep its state Secret, and no other, and report
/// events.
pub open spec fn proxy_rules(state_secret_name: Seq<char>) -> Seq<PolicyRuleView> {
    seq![
        PolicyRuleView {
            api_groups: Some(seq![""@]),
            resources: Some(seq!["secrets"@]),
            resource_names: Some(seq![state_secret_name]),
            verbs: seq!["get"@, "update"@, "patch"@],
        },
        PolicyRuleView {
            api_groups: Some(seq![""@]),
            resources: Some(seq!["events"@]),
            resource_names: None,
            verbs: seq!["create"@, "patch"@],
        },
    ]
}

fn one_text(text: &str) -> (texts: Vec<String>)
    ensures
        texts_of(texts@) == seq![text@],
{
    let mut texts: Vec<String> = Vec::new();
    texts.push(String::from_str(text));
    proof {
        assert(texts_of(texts@) =~= seq![text@]);
    }
    texts
}

/// Builds the ServiceAccount of a proxy.
pub fn proxy_service_account(names: &ProxyNames) -> (account: ServiceAccount)
    ensures
        account.metadata.is_named(names.proxy_name@),
{
    ServiceAccount { metadata: ObjectMeta::named(names.proxy_name.as_str()) }
}

/// Builds the Role of a proxy.
pub fn proxy_role(names: &ProxyNames) -> (role: Role)
    ensures
        role.metadata.is_named(names.proxy_name@),
        role.rules is Some,
        views(role.rules->0@) == proxy_rules(names.state_secret_name@),
{
    let mut secret_verbs: Vec<String> = Vec::new();
    secret_verbs.push(String::from_str("get"));
    secret_verbs.push(String::from_str("update"));
    secret_verbs.push(String::from_str("patch"));
    let mut event_verbs: Vec<String> = Vec::new();
    event_verbs.push(String::from_str("create"));
    event_verbs.push(String::from_str("patch"));
    proof {
        assert(texts_of(secret_verbs@) =~= seq!["get"@, "update"@, "patch"@]);
        assert(texts_of(event_verbs@) =~= seq!["create"@, "patch"@]);
    }
    let mut rules: Vec<PolicyRule> = Vec::new();
    rules.push(
        PolicyRule {
            api_groups: Some(one_text("")),
            resources: Some(one_text("secrets")),
            resource_names: Some(one_text(names.state_secret_name.as_str())),
            verbs: secret_verbs,
        },
    );
    rules.push(
        PolicyRule {
            api_groups: Some(one_text("")),
            resources: Some(one_text("events")),
            resource_names: None,
            verbs: event_verbs,
        },
    );
    proof {
        assert(views(rules@) =~= proxy_rules(names.state_secret_name@));
    }
    Role { metadata: ObjectMeta::named(names.proxy_name.as_str()), rules: Some(rules) }
}

/// Whether `binding` gives the ServiceAccount `name` of a namespace the Role
/// of that name, and nobody else.
pub open spec fn is_proxy_binding(
    binding: RoleBinding,
    name: Seq<char>,
    namespace: Seq<char>,
) -> bool {
    &&& binding.metadata.is_named(name)
    &&& binding.role_ref.api_group@ == "rbac.authorization.k8s.io"@
    &&& binding.role_ref.kind@ == "Role"@
    &&& binding.role_ref.name@ == name
    &&& binding.subjects is Some
    &&& binding.subjects->0@.len() == 1
    &&& binding.subjects->0@[0].kind@ == "ServiceAccount"@
    &&& binding.subjects->0@[0].name@ == name
    &&& text_of(binding.subjects->0@[0].namespace) == Some(namespace)
}

/// Builds the RoleBinding of a proxy: its Role for its ServiceAccount.
pub fn proxy_role_binding(names: &ProxyNames, namespace: &str) -> (binding: RoleBinding)
    ensures
        is_proxy_binding(binding, names.proxy_name@, namespace@),
{
    let mut subjects: Vec<Subject> = Vec::new();
    subjects.push(
        Subject {
            kind: String::from_str("ServiceAccount"),
            name: names.proxy_name.clone(),
            namespace: Some(String::from_str(namespace)),
        },
    );
    RoleBinding {
        metadata: ObjectMeta::named(names.proxy_name.as_str()),
        role_ref: RoleRef {
            api_group: String::from_str("rbac.authorization.k8s.io"),
            kind: String::from_str("Role"),
            name: names.proxy_name.clone(),
        },
        subjects: Some(subjects),
    }
}

// ---- the StatefulSet ----

/// Where the daemon of an egress proxy lets the forwarders of its pod into the
/// tailnet.
pub const SOCKS5_LISTENER: &'static str = "localhost:1055";

/// What makes a proxy an egress proxy: its pod forwards ports to a tailnet
/// host.
#[derive(Debug, PartialEq, Eq)]
pub struct Egress {
    /// Image of the forwarders.
    pub image: String,
    pub host: String,
    /// Ports of the pod, each with the port of the host that it leads to.
    pub forwards: Vec<(i32, i32)>,
}

/// What an egress proxy forwards.
pub struct EgressView {
    pub image: Seq<char>,
    pub host: Seq<char>,
    pub forwards: Seq<(i32, i32)>,
}

impl View for Egress {
    type V = EgressView;

    open spec fn view(&self) -> EgressView {
        EgressView { image: self.image@, host: self.host@, forwards: self.forwards@ }
    }
}

/// What a proxy forwards, where it is an egress proxy.
pub open spec fn egress_of(egress: Option<Egress>) -> Option<EgressView> {
    match egress {
        Some(egress) => Some(egress@),
        None => None,
    }
}

/// Arguments of socat: listen on a port of the pod, and dial a port of the
/// host through the daemon, which gets the host by its name.
pub open spec fn forwarder_args(host: Seq<char>, forward: (i32, i32)) -> Seq<Seq<char>> {
    seq![
        "TCP-LISTEN:"@ + decimal(forward.0 as int) + ",fork,reuseaddr"@,
        "SOCKS5-CONNECT:"@ + SOCKS5_LISTENER@ + ":"@ + host + ":"@ + decimal(forward.1 as int),
    ]
}

/// Whether `container` forwards a port of the pod to a port of the host. It
/// may listen on any port, and nothing else.
pub open spec fn is_forwarder(
    container: Container,
    image: Seq<char>,
    host: Seq<char>,
    forward: (i32, i32),
) -> bool {
    &&& container.name@ == forward_name(forward.0 as int)
    &&& text_of(container.image) == Some(image)
    &&& list_of(container.args) == Some(forwarder_args(host, forward))
    &&& container.env is None
    &&& container.security_context is Some
    &&& container.security_context->0.allow_privilege_escalation == Some(false)
    &&& list_of(container.security_context->0.drop_capabilities) == Some(seq!["ALL"@])
    &&& list_of(container.security_context->0.add_capabilities) == Some(
        seq!["NET_BIND_SERVICE"@],
    )
    &&& container.volume_mounts is None
}

/// Arguments of `tailscale up`.
pub open spec fn up_args(headscale_url: Seq<char>) -> Seq<char> {
    "--login-server="@ + headscale_url
        + " --advertise-exit-node=false --snat-subnet-routes=false --stateful-filtering=false"@
}

/// Arguments of the tailscaled daemon: the port of the socket, pinned on the
/// pod network and picked by the daemon on the host network, where the node's
/// own daemon has the usual one.
pub open spec fn daemon_args(networking: ProxyNetworking) -> Seq<char> {
    match networking {
        ProxyNetworking::NodePort { .. } => "--port=41641 --socket=/tmp/tailscaled.sock"@,
        ProxyNetworking::Host => "--port=0 --socket=/tmp/tailscaled.sock"@,
    }
}

/// The environment of a proxy container. On the pod network it tells the
/// daemon which address of the node to advertise. The daemon of an egress
/// proxy listens for the forwarders.
pub open spec fn proxy_env(
    names: ProxyNames,
    headscale_url: Seq<char>,
    hostname: Seq<char>,
    networking: ProxyNetworking,
    egress: Option<EgressView>,
) -> Seq<EnvVarView> {
    let common = seq![
        env_secret("TS_AUTHKEY"@, names.config_secret_name@, "key"@),
        env_value("TS_HOSTNAME"@, hostname),
        env_value("TS_EXTRA_ARGS"@, up_args(headscale_url)),
        env_value("TS_TAILSCALED_EXTRA_ARGS"@, daemon_args(networking)),
        env_value("TS_SERVE_CONFIG"@, SERVE_CONFIG_PATH@),
        env_value("TS_USERSPACE"@, "true"@),
        env_value("TS_KUBE_SECRET"@, names.state_secret_name@),
        env_field("POD_NAME"@, "metadata.name"@),
        env_field("POD_NAMESPACE"@, "metadata.namespace"@),
    ];
    let advertised = match networking {
        ProxyNetworking::NodePort { node_port } => common + seq![
            env_field("NODE_IP"@, "status.hostIP"@),
            env_value("NODE_PORT"@, decimal(node_port as int)),
            env_value("TS_DEBUG_PRETENDPOINT"@, "$(NODE_IP):$(NODE_PORT)"@),
        ],
        ProxyNetworking::Host => common,
    };
    if egress is Some {
        advertised.push(env_value("TS_SOCKS5_SERVER"@, SOCKS5_LISTENER@))
    } else {
        advertised
    }
}

/// Whether `container` is the container of a proxy: without privileges, with
/// the serve config mounted for reading.
pub open spec fn is_proxy_container(
    container: Container,
    names: ProxyNames,
    image: Seq<char>,
    headscale_url: Seq<char>,
    hostname: Seq<char>,
    networking: ProxyNetworking,
    egress: Option<EgressView>,
) -> bool {
    &&& container.name@ == "proxy"@
    &&& text_of(container.image) == Some(image)
    &&& container.args is None
    &&& container.env is Some
    &&& views(container.env->0@) == proxy_env(names, headscale_url, hostname, networking, egress)
    &&& container.security_context is Some
    &&& container.security_context->0.allow_privilege_escalation == Some(false)
    &&& list_of(container.security_context->0.drop_capabilities) == Some(seq!["ALL"@])
    &&& container.security_context->0.add_capabilities is None
    &&& container.volume_mounts is Some
    &&& container.volume_mounts->0@.len() == 1
    &&& container.volume_mounts->0@[0].name@ == "serve-config"@
    &&& container.volume_mounts->0@[0].mount_path@ == SERVE_CONFIG_MOUNT@
    &&& container.volume_mounts->0@[0].read_only == Some(true)
}

/// Whether `pod` is the pod of a proxy: the proxy and, for an egress proxy, a
/// forwarder for each of its forwards. On the host network it still resolves
/// names by the cluster's DNS.
pub open spec fn is_proxy_pod(
    pod: PodSpec,
    names: ProxyNames,
    image: Seq<char>,
    headscale_url: Seq<char>,
    hostname: Seq<char>,
    networking: ProxyNetworking,
    egress: Option<EgressView>,
) -> bool {
    &&& pod.containers@.len() == 1 + forwards_in(egress).len()
    &&& is_proxy_container(
        pod.containers@[0],
        names,
        image,
        headscale_url,
        hostname,
        networking,
        egress,
    )
    &&& forall|i: int|
        1 <= i < pod.containers@.len() ==> is_forwarder(
            #[trigger] pod.containers@[i],
            egress->0.image,
            egress->0.host,
            egress->0.forwards[i - 1],
        )
    &&& pod.host_network == (match networking {
        ProxyNetworking::Host => Some(true),
        ProxyNetworking::NodePort { .. } => None,
    })
    &&& text_of(pod.dns_policy) == (match networking {
        ProxyNetworking::Host => Some("ClusterFirstWithHostNet"@),
        ProxyNetworking::NodePort { .. } => None,
    })
    &&& pod.security_context is Some
    &&& pod.security_context->0.seccomp_profile is Some
    &&& pod.security_context->0.seccomp_profile->0.type_@ == "RuntimeDefault"@
    &&& pod.security_context->0.seccomp_profile->0.localhost_profile is None
    &&& text_of(pod.service_account_name) == Some(names.proxy_name@)
    &&& pod.volumes is Some
    &&& pod.volumes->0@.len() == 1
    &&& pod.volumes->0@[0].holds(
        VolumeView::ConfigMap {
            name: "serve-config"@,
            config_map: names.serve_configmap_name@,
        },
    )
}

/// The forwards of a proxy, none where it is no egress proxy.
pub open spec fn forwards_in(egress: Option<EgressView>) -> Seq<(i32, i32)> {
    match egress {
        Some(egress) => egress.forwards,
        None => Seq::empty(),
    }
}

/// Whether `sts` is the StatefulSet of a proxy: one pod, governed by the
/// WireGuard Service.
pub open spec fn is_proxy_statefulset(
    sts: StatefulSet,
    names: ProxyNames,
    image: Seq<char>,
    headscale_url: Seq<char>,
    hostname: Seq<char>,
    networking: ProxyNetworking,
    egress: Option<EgressView>,
) -> bool {
    &&& sts.metadata.is_named(names.proxy_name@)
    &&& sts.spec is Some
    &&& sts.spec->0.replicas == Some(1i32)
    &&& text_of(sts.spec->0.service_name) == Some(names.wg_service_name@)
    &&& sts.spec->0.template.spec is Some
    &&& is_proxy_pod(
        sts.spec->0.template.spec->0,
        names,
        image,
        headscale_url,
        hostname,
        networking,
        egress,
    )
}

fn proxy_environment(
    names: &ProxyNames,
    headscale_url: &str,
    hostname: &str,
    networking: &ProxyNetworking,
    egress: &Option<Egress>,
) -> (env: Vec<EnvVar>)
    ensures
        views(env@) == proxy_env(
            *names,
            headscale_url@,
            hostname@,
            *networking,
            egress_of(*egress),
        ),
{
    let up = join3(
        "--login-server=",
        headscale_url,
        " --advertise-exit-node=false --snat-subnet-routes=false --stateful-filtering=false",
    );
    let daemon = match networking {
        ProxyNetworking::NodePort { .. } => "--port=41641 --socket=/tmp/tailscaled.sock",
        ProxyNetworking::Host => "--port=0 --socket=/tmp/tailscaled.sock",
    };
    let mut env: Vec<EnvVar> = Vec::new();
    env.push(EnvVar::from_secret("TS_AUTHKEY", names.config_secret_name.as_str(), "key"));
    env.push(EnvVar::with_value("TS_HOSTNAME", hostname));
    env.push(EnvVar::with_value("TS_EXTRA_ARGS", up.as_str()));
    env.push(EnvVar::with_value("TS_TAILSCALED_EXTRA_ARGS", daemon));
    env.push(EnvVar::with_value("TS_SERVE_CONFIG", SERVE_CONFIG_PATH));
    env.push(EnvVar::with_value("TS_USERSPACE", "true"));
    env.push(EnvVar::with_value("TS_KUBE_SECRET", names.state_secret_name.as_str()));
    env.push(EnvVar::from_field("POD_NAME", "metadata.name"));
    env.push(EnvVar::from_field("POD_NAMESPACE", "metadata.namespace"));
    if let ProxyNetworking::NodePort { node_port } = networking {
        env.push(EnvVar::from_field("NODE_IP", "status.hostIP"));
        env.push(EnvVar::with_value("NODE_PORT", decimal_i32(*node_port).as_str()));
        env.push(EnvVar::with_value("TS_DEBUG_PRETENDPOINT", "$(NODE_IP):$(NODE_PORT)"));
    }
    if egress.is_some() {
        env.push(EnvVar::with_value("TS_SOCKS5_SERVER", SOCKS5_LISTENER));
    }
    proof {
        assert(views(env@) =~= proxy_env(
            *names,
            headscale_url@,
            hostname@,
            *networking,
            egress_of(*egress),
        ));
    }
    env
}

fn proxy_container(
    names: &ProxyNames,
    proxy_image: &str,
    headscale_url: &str,
    hostname: &str,
    networking: &ProxyNetworking,
    egress: &Option<Egress>,
) -> (container: Container)
    ensures
        is_proxy_container(
            container,
            *names,
            proxy_image@,
            headscale_url@,
            hostname@,
            *networking,
            egress_of(*egress),
        ),
{
    let mut volume_mounts: Vec<VolumeMount> = Vec::new();
    volume_mounts.push(
        VolumeMount {
            name: String::from_str("serve-config"),
            mount_path: String::from_str(SERVE_CONFIG_MOUNT),
            read_only: Some(true),
        },
    );
    Container {
        name: String::from_str("proxy"),
        image: Some(String::from_str(proxy_image)),
        args: None,
        env: Some(proxy_environment(names, headscale_url, hostname, networking, egress)),
        security_context: Some(
            SecurityContext {
                allow_privilege_escalation: Some(false),
                drop_capabilities: Some(one_text("ALL")),
                add_capabilities: None,
            },
        ),
        volume_mounts: Some(volume_mounts),
    }
}

fn forwarder(image: &str, host: &str, forward: (i32, i32)) -> (container: Container)
    ensures
        is_forwarder(container, image@, host@, forward),
{
    let listen = decimal_i32(forward.0);
    let proxy = join2("SOCKS5-CONNECT:", SOCKS5_LISTENER);
    let mut args: Vec<String> = Vec::new();
    args.push(join3("TCP-LISTEN:", listen.as_str(), ",fork,reuseaddr"));
    args.push(join5(proxy.as_str(), ":", host, ":", decimal_i32(forward.1).as_str()));
    proof {
        assert(texts_of(args@) =~= forwarder_args(host@, forward));
    }
    Container {
        name: join2("forward-", listen.as_str()),
        image: Some(String::from_str(image)),
        args: Some(args),
        env: None,
        security_context: Some(
            SecurityContext {
                allow_privilege_escalation: Some(false),
                drop_capabilities: Some(one_text("ALL")),
                add_capabilities: Some(one_text("NET_BIND_SERVICE")),
            },
        ),
        volume_mounts: None,
    }
}

/// Builds the StatefulSet of a proxy that forwards nothing into the tailnet.
pub fn build_proxy_statefulset(
    names: &ProxyNames,
    proxy_image: &str,
    headscale_url: &str,
    hostname: &str,
    networking: &ProxyNetworking,
) -> (sts: StatefulSet)
    ensures
        is_proxy_statefulset(
            sts,
            *names,
            proxy_image@,
            headscale_url@,
            hostname@,
            *networking,
            None,
        ),
{
    build_statefulset(names, proxy_image, headscale_url, hostname, networking, &None)
}

/// Builds the StatefulSet of a proxy, with the forwarders of an egress proxy.
pub fn build_statefulset(
    names: &ProxyNames,
    proxy_image: &str,
    headscale_url: &str,
    hostname: &str,
    networking: &ProxyNetworking,
    egress: &Option<Egress>,
) -> (sts: StatefulSet)
    ensures
        is_proxy_statefulset(
            sts,
            *names,
            proxy_image@,
            headscale_url@,
            hostname@,
            *networking,
            egress_of(*egress),
        ),
{
    let mut volumes: Vec<Volume> = Vec::new();
    volumes.push(
        Volume::configmap(
            "serve-config",
            ConfigMapVolumeSource { name: names.serve_configmap_name.clone() },
        ),
    );
    let mut containers: Vec<Container> = Vec::new();
    containers.push(
        proxy_container(names, proxy_image, headscale_url, hostname, networking, egress),
    );
    if let Some(egress) = egress {
        let ghost proxy = containers@[0];
        let mut i: usize = 0;
        while i < egress.forwards.len()
            invariant
                i <= egress.forwards@.len(),
                containers@.len() == i + 1,
                containers@[0] == proxy,
                forall|k: int|
                    1 <= k <= i ==> is_forwarder(
                        #[trigger] containers@[k],
                        egress.image@,
                        egress.host@,
                        egress.forwards@[k - 1],
                    ),
            decreases egress.forwards@.len() - i,
        {
            containers.push(
                forwarder(egress.image.as_str(), egress.host.as_str(), egress.forwards[i]),
            );
            i = i + 1;
        }
    }
    let (host_network, dns_policy) = match networking {
        ProxyNetworking::Host => (
            Some(true),
            Some(String::from_str("ClusterFirstWithHostNet")),
        ),
        ProxyNetworking::NodePort { .. } => (None, None),
    };
    let pod = PodSpec {
        containers,
        host_network,
        dns_policy,
        security_context: Some(
            PodSecurityContext {
                seccomp_profile: Some(
                    SeccompProfile {
                        type_: String::from_str("RuntimeDefault"),
                        localhost_profile: None,
                    },
                ),
            },
        ),
        service_account_name: Some(names.proxy_name.clone()),
        volumes: Some(volumes),
    };
    StatefulSet {
        metadata: ObjectMeta::named(names.proxy_name.as_str()),
        spec: Some(
            StatefulSetSpec {
                replicas: Some(1),
                service_name: Some(names.wg_service_name.clone()),
                template: PodTemplateSpec { spec: Some(pod) },
            },
        ),
    }
}

/// Every port of an egress proxy's Service leads to the tailnet host: it is a
/// TCP port, on whose number a forwarder of the pod listens, which dials the
/// host's port by the host's name through the daemon.
pub proof fn every_port_leads_to_the_tailnet_host(
    names: ProxyNames,
    svc: Service,
    host_network: bool,
    sts: StatefulSet,
    image: Seq<char>,
    url: Seq<char>,
    hostname: Seq<char>,
    networking: ProxyNetworking,
    egress: EgressView,
    i: int,
)
    requires
        is_wireguard_service(svc, names.wg_service_name@, host_network, egress.forwards),
        is_proxy_statefulset(sts, names, image, url, hostname, networking, Some(egress)),
        0 <= i < egress.forwards.len(),
    ensures
        ({
            let pod = sts.spec->0.template.spec->0;
            let port = ports_of(svc)[i + 1];
            &&& ports_of(svc).len() == 1 + egress.forwards.len()
            &&& pod.containers@.len() == 1 + egress.forwards.len()
            &&& text_of(port.protocol) == Some("TCP"@)
            &&& port.port == egress.forwards[i].0
            &&& port.target_port == Some(IntOrString::Int(egress.forwards[i].0))
            &&& text_of(pod.containers@[i + 1].image) == Some(egress.image)
            &&& list_of(pod.containers@[i + 1].args) == Some(
                forwarder_args(egress.host, egress.forwards[i]),
            )
            &&& views(pod.containers@[0].env->0@).contains(
                env_value("TS_SOCKS5_SERVER"@, SOCKS5_LISTENER@),
            )
        }),
{
    let pod = sts.spec->0.template.spec->0;
    let env = views(pod.containers@[0].env->0@);
    assert(is_forward_port(svc.spec->0.ports->0@[i + 1], egress.forwards[i].0));
    assert(is_forwarder(pod.containers@[i + 1], egress.image, egress.host, egress.forwards[i]));
    assert(env[env.len() - 1] == env_value("TS_SOCKS5_SERVER"@, SOCKS5_LISTENER@));
}

// ---- the consumers of an egress proxy ----

/// Label that every namespace carries its own name under.
pub const NAMESPACE_NAME_LABEL: &'static str = "kubernetes.io/metadata.name";

/// The peer that a consumer stands for: pods of its namespace, with its
/// labels.
pub open spec fn consumer_peer(consumer: EgressConsumer) -> PeerView {
    PeerView {
        namespaces: Map::empty().insert(NAMESPACE_NAME_LABEL@, consumer.namespace@),
        pods: labels_of(consumer.pods),
    }
}

/// The peers that some consumers stand for.
pub open spec fn consumer_peers(consumers: Seq<EgressConsumer>) -> Seq<PeerView> {
    consumers.map_values(|consumer: EgressConsumer| consumer_peer(consumer))
}

fn copy_labels(labels: &Option<TextMap<String>>) -> (copy: Option<TextMap<String>>)
    ensures
        labels_of(copy) == labels_of(*labels),
{
    match labels {
        Some(labels) => {
            let copy = labels.clone();
            proof {
                assert(copy@ =~= labels@);
            }
            Some(copy)
        },
        None => None,
    }
}

/// The peers of a policy that lets exactly some consumers through.
pub fn peers_of(consumers: &Vec<EgressConsumer>) -> (peers: Vec<NetworkPolicyPeer>)
    ensures
        views(peers@) == consumer_peers(consumers@),
{
    let mut peers: Vec<NetworkPolicyPeer> = Vec::new();
    let mut i: usize = 0;
    while i < consumers.len()
        invariant
            i <= consumers@.len(),
            peers@.len() == i,
            forall|k: int| 0 <= k < i ==> (#[trigger] peers@[k])@ == consumer_peer(consumers@[k]),
        decreases consumers@.len() - i,
    {
        let consumer = &consumers[i];
        let peer = NetworkPolicyPeer {
            namespace_selector: LabelSelector {
                match_labels: Some(
                    TextMap::with(NAMESPACE_NAME_LABEL, consumer.namespace.clone()),
                ),
            },
            pod_selector: LabelSelector { match_labels: copy_labels(&consumer.pods) },
        };
        proof {
            assert(peer@.namespaces =~= consumer_peer(*consumer).namespaces);
        }
        peers.push(peer);
        i = i + 1;
    }
    proof {
        assert(views(peers@) =~= consumer_peers(consumers@));
    }
    peers
}

/// Whether `policy` guards the pods with `pod_labels`, and lets exactly `peers`
/// through.
pub open spec fn is_consumers_policy(
    policy: NetworkPolicy,
    name: Seq<char>,
    pod_labels: Map<Seq<char>, Seq<char>>,
    peers: Seq<PeerView>,
) -> bool {
    &&& policy.metadata.is_named(name)
    &&& policy.spec is Some
    &&& policy.spec->0.pod_selector@ == pod_labels
    &&& policy.spec->0.policy_types is Some
    &&& texts_of(policy.spec->0.policy_types->0@) == seq!["Ingress"@]
    &&& policy.spec->0.ingress is Some
    &&& policy.spec->0.ingress->0@.len() == 1
    &&& policy.spec->0.ingress->0@[0].from is Some
    &&& views(policy.spec->0.ingress->0@[0].from->0@) == peers
}

/// Builds the policy that lets `peers` through to the pods of a proxy, which
/// have `pod_labels`, and nobody else. It is for at least one peer: a rule
/// without peers lets everybody through.
pub fn consumers_policy(
    names: &ProxyNames,
    pod_labels: &TextMap<String>,
    peers: Vec<NetworkPolicyPeer>,
) -> (policy: NetworkPolicy)
    ensures
        is_consumers_policy(
            policy,
            names.proxy_name@,
            pod_labels@.map_values(|value: String| value@),
            views(peers@),
        ),
{
    let match_labels = pod_labels.clone();
    proof {
        assert(match_labels@ =~= pod_labels@);
    }
    let mut ingress: Vec<NetworkPolicyIngressRule> = Vec::new();
    ingress.push(NetworkPolicyIngressRule { from: Some(peers) });
    NetworkPolicy {
        metadata: ObjectMeta::named(names.proxy_name.as_str()),
        spec: Some(
            NetworkPolicySpec {
                pod_selector: LabelSelector { match_labels: Some(match_labels) },
                policy_types: Some(one_text("Ingress")),
                ingress: Some(ingress),
            },
        ),
    }
}

/// A pod gets past the policy exactly where some consumer means it: it is in
/// the consumer's namespace and has the consumer's labels. A consumer without
/// labels means every pod of its namespace.
pub proof fn only_consumers_are_let_through(
    consumers: Seq<EgressConsumer>,
    namespace: Map<Seq<char>, Seq<char>>,
    ns: Seq<char>,
    pod: Map<Seq<char>, Seq<char>>,
)
    requires
        namespace.contains_key(NAMESPACE_NAME_LABEL@),
        namespace[NAMESPACE_NAME_LABEL@] == ns,
    ensures
        (exists|i: int|
            0 <= i < consumer_peers(consumers).len() && lets_through(
                #[trigger] consumer_peers(consumers)[i],
                namespace,
                pod,
            )) <==> (exists|i: int|
            0 <= i < consumers.len() && (#[trigger] consumers[i]).namespace@ == ns && selects(
                labels_of(consumers[i].pods),
                pod,
            )),
{
    let peers = consumer_peers(consumers);
    assert forall|i: int| 0 <= i < consumers.len() implies (lets_through(
        #[trigger] peers[i],
        namespace,
        pod,
    ) <==> (consumers[i].namespace@ == ns && selects(labels_of(consumers[i].pods), pod))) by {
        assert(peers[i] == consumer_peer(consumers[i]));
        assert(peers[i].namespaces.contains_key(NAMESPACE_NAME_LABEL@));
    }
    if exists|i: int| 0 <= i < peers.len() && lets_through(#[trigger] peers[i], namespace, pod) {
        let i = choose|i: int|
            0 <= i < peers.len() && lets_through(#[trigger] peers[i], namespace, pod);
        assert(consumers[i].namespace@ == ns);
    }
    if exists|i: int|
        0 <= i < consumers.len() && (#[trigger] consumers[i]).namespace@ == ns && selects(
            labels_of(consumers[i].pods),
            pod,
        ) {
        let i = choose|i: int|
            0 <= i < consumers.len() && (#[trigger] consumers[i]).namespace@ == ns && selects(
                labels_of(consumers[i].pods),
                pod,
            );
        assert(lets_through(peers[i], namespace, pod));
    }
}

/// Taking a proxy down deletes everything that provisioning builds.
pub proof fn teardown_covers_what_is_built(
    names: ProxyNames,
    svc: Service,
    host_network: bool,
    config: Secret,
    key: Seq<u8>,
    state: Secret,
    headscale_ref: Seq<u8>,
    config_map: ConfigMap,
    account: ServiceAccount,
    role: Role,
    binding: RoleBinding,
    sts: StatefulSet,
    image: Seq<char>,
    url: Seq<char>,
    hostname: Seq<char>,
    networking: ProxyNetworking,
    egress: Option<EgressView>,
    policy: NetworkPolicy,
    pod_labels: Map<Seq<char>, Seq<char>>,
    peers: Seq<PeerView>,
)
    requires
        is_wireguard_service(svc, names.wg_service_name@, host_network, forwards_in(egress)),
        is_single_secret(config, names.config_secret_name@, "key"@, key),
        is_single_secret(state, names.state_secret_name@, "headscale_ref"@, headscale_ref),
        config_map.metadata.is_named(names.serve_configmap_name@),
        account.metadata.is_named(names.proxy_name@),
        role.metadata.is_named(names.proxy_name@),
        binding.metadata.is_named(names.proxy_name@),
        is_proxy_statefulset(sts, names, image, url, hostname, networking, egress),
        is_consumers_policy(policy, names.proxy_name@, pod_labels, peers),
    ensures
        resources_of(names).contains((ResourceKind::Service, svc.metadata.name->0@)),
        resources_of(names).contains((ResourceKind::Secret, config.metadata.name->0@)),
        resources_of(names).contains((ResourceKind::Secret, state.metadata.name->0@)),
        resources_of(names).contains((ResourceKind::ConfigMap, config_map.metadata.name->0@)),
        resources_of(names).contains((ResourceKind::ServiceAccount, account.metadata.name->0@)),
        resources_of(names).contains((ResourceKind::Role, role.metadata.name->0@)),
        resources_of(names).contains((ResourceKind::RoleBinding, binding.metadata.name->0@)),
        resources_of(names).contains((ResourceKind::StatefulSet, sts.metadata.name->0@)),
        resources_of(names).contains((ResourceKind::NetworkPolicy, policy.metadata.name->0@)),
{
    let all = resources_of(names);
    assert(all[0] == (ResourceKind::StatefulSet, sts.metadata.name->0@));
    assert(all[1] == (ResourceKind::Service, svc.metadata.name->0@));
    assert(all[2] == (ResourceKind::Secret, config.metadata.name->0@));
    assert(all[3] == (ResourceKind::Secret, state.metadata.name->0@));
    assert(all[4] == (ResourceKind::ConfigMap, config_map.metadata.name->0@));
    assert(all[5] == (ResourceKind::NetworkPolicy, policy.metadata.name->0@));
    assert(all[6] == (ResourceKind::RoleBinding, binding.metadata.name->0@));
    assert(all[7] == (ResourceKind::Role, role.metadata.name->0@));
    assert(all[8] == (ResourceKind::ServiceAccount, account.metadata.name->0@));
}

} // verus!
