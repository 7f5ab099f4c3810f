//! Laws of the resources of a proxy.

use crate::annotations::EgressConsumer;
use crate::error::Error;
use crate::json::{pretty_json, Json};
use crate::laws::support::{absent, holds, went_well};
use crate::names::ProxyNames;
use crate::objects::{ports_of, ConfigMap, IntOrString, Secret, Service};
use crate::resources::{
    consumer_peers, egress_of, first_node_port, headless, is_consumers_policy, is_proxy_binding,
    is_proxy_statefulset, is_serve_configmap, is_single_secret, is_wireguard_service, proxy_env,
    proxy_rules, wireguard_step, Egress, EgressView, ProxyNetworking, WireguardAction,
    WireguardKnown,
};
use crate::sort::views;
use crate::text::decimal;
use crate::textmap::TextMap;
use crate::workload::{
    labels_of, lets_through, list_of, selects, EnvVar, EnvVarView, NetworkPolicy, NetworkPolicyPeer,
    PeerView, PolicyRule, RoleBinding, StatefulSet, Volume, VolumeExt, VolumeView,
};
use vstd::prelude::*;
use vstd::string::*;

verus! {

// ---- the Service ----

/// The Service of a proxy has the WireGuard socket as its first port, over
/// UDP. On the pod network it is of type NodePort and keeps the client's
/// address; on the host network it is headless.
pub proof fn service_has_the_wireguard_socket(
    svc: Service,
    name: Seq<char>,
    host_network: bool,
    forwards: Seq<(i32, i32)>,
)
    requires
        is_wireguard_service(svc, name, host_network, forwards),
    ensures
        svc.metadata.name is Some && svc.metadata.name->0@ == name,
        svc.spec is Some,
        ({
            let spec = svc.spec->0;
            let socket = spec.ports->0@[0];
            &&& spec.ports is Some && spec.ports->0@.len() > 0
            &&& socket.name is Some && socket.name->0@ == "wireguard"@
            &&& socket.protocol is Some && socket.protocol->0@ == "UDP"@
            &&& socket.port == 41641
            &&& socket.node_port is None
            &&& spec.external_name is None
            &&& !host_network ==> spec.type_ is Some && spec.type_->0@ == "NodePort"@
                && spec.cluster_ip is None && spec.external_traffic_policy is Some
                && spec.external_traffic_policy->0@ == "Local"@ && socket.target_port == Some(
                IntOrString::Int(41641),
            )
            &&& host_network ==> spec.type_ is None && spec.cluster_ip is Some
                && spec.cluster_ip->0@ == "None"@ && spec.external_traffic_policy is None
                && socket.target_port is None
        }),
{
}

/// Behind the socket the Service has one TCP port for each forward, of the
/// number that is listened on in the pod, and no other.
pub proof fn service_has_a_port_for_each_forward(
    svc: Service,
    name: Seq<char>,
    host_network: bool,
    forwards: Seq<(i32, i32)>,
    i: int,
)
    requires
        is_wireguard_service(svc, name, host_network, forwards),
        0 <= i < forwards.len(),
    ensures
        ports_of(svc).len() == forwards.len() + 1,
        ({
            let port = ports_of(svc)[i + 1];
            &&& port.port == forwards[i].0
            &&& port.protocol is Some && port.protocol->0@ == "TCP"@
            &&& port.target_port == Some(IntOrString::Int(forwards[i].0))
            &&& port.node_port is None
            &&& port.name is Some && port.name->0@ == "forward-"@ + decimal(forwards[i].0 as int)
        }),
{
    assert(crate::resources::is_forward_port(svc.spec->0.ports->0@[i + 1], forwards[i + 1 - 1].0));
}

/// A Service is headless exactly where its cluster IP says so, and its node
/// port is that of its first port.
pub proof fn shape_is_read_from_the_service(svc: Service)
    ensures
        headless(svc) <==> svc.spec is Some && svc.spec->0.cluster_ip is Some
            && svc.spec->0.cluster_ip->0@ == "None"@,
        svc.spec is Some && svc.spec->0.ports is Some && svc.spec->0.ports->0@.len() > 0
            ==> first_node_port(svc) == svc.spec->0.ports->0@[0].node_port,
        svc.spec is None || svc.spec->0.ports is None || svc.spec->0.ports->0@.len() == 0
            ==> first_node_port(svc) is None,
{
}

/// How the Service is applied: it is read, deleted where it has the other
/// shape, applied and, on the pod network, read back for its node port. What
/// fails ends it, and so does a port that was not assigned.
pub proof fn service_is_applied_in_order(known: WireguardKnown, host_network: bool)
    ensures
        ({
            let action = wireguard_step(known, host_network);
            let misshapen = went_well(known.current) && headless(known.current->0->Ok_0)
                != host_network;
            let clear = known.current is Some && (known.current->0 is Ok || absent(
                known.current->0->Err_0,
            )) && (misshapen ==> went_well(known.deleted));
            &&& action is GetCurrent <==> known.current is None
            &&& known.current is Some && known.current->0 is Err && !absent(
                known.current->0->Err_0,
            ) ==> action == WireguardAction::Done(
                Err::<ProxyNetworking, Error>(Error::Kube(known.current->0->Err_0)),
            )
            &&& action is DeleteCurrent <==> misshapen && known.deleted is None
            &&& misshapen && known.deleted is Some && known.deleted->0 is Err ==> action
                == WireguardAction::Done(
                Err::<ProxyNetworking, Error>(known.deleted->0->Err_0),
            )
            &&& action is Apply <==> clear && known.applied is None
            &&& clear && known.applied is Some && known.applied->0 is Err ==> action
                == WireguardAction::Done(
                Err::<ProxyNetworking, Error>(known.applied->0->Err_0),
            )
            &&& clear && went_well(known.applied) && host_network ==> action
                == WireguardAction::Done(Ok::<ProxyNetworking, Error>(ProxyNetworking::Host))
            &&& action is GetLive <==> clear && went_well(known.applied) && !host_network
                && known.live is None
            &&& clear && went_well(known.applied) && !host_network && known.live is Some
                && known.live->0 is Err ==> action == WireguardAction::Done(
                Err::<ProxyNetworking, Error>(Error::Kube(known.live->0->Err_0)),
            )
            &&& clear && went_well(known.applied) && !host_network && went_well(known.live)
                ==> action == WireguardAction::Done(
                match first_node_port(known.live->0->Ok_0) {
                    Some(node_port) => Ok::<ProxyNetworking, Error>(
                        ProxyNetworking::NodePort { node_port },
                    ),
                    None => Err(Error::NodePortNotAssigned),
                },
            )
        }),
{
}

// ---- Secrets and rights ----

/// A Secret of a proxy has its name, and the bytes under its key and no other.
pub proof fn secret_holds_one_key(
    secret: Secret,
    name: Seq<char>,
    key: Seq<char>,
    bytes: Seq<u8>,
    other: Seq<char>,
)
    requires
        is_single_secret(secret, name, key, bytes),
    ensures
        secret.metadata.name is Some && secret.metadata.name->0@ == name,
        holds(secret, key, bytes),
        other != key ==> !secret.data->0@.contains_key(other),
{
    assert(secret.data->0@.dom().contains(other) <==> other == key);
    assert(secret.data->0@.dom().contains(key));
}

/// A proxy may get, update and patch its own state Secret and no other, create
/// and patch events, and do nothing else.
pub proof fn proxy_may_keep_its_state(state_secret: Seq<char>)
    ensures
        proxy_rules(state_secret).len() == 2,
        ({
            let secrets = proxy_rules(state_secret)[0];
            let events = proxy_rules(state_secret)[1];
            &&& secrets.resources == Some(seq!["secrets"@])
            &&& secrets.resource_names == Some(seq![state_secret])
            &&& secrets.api_groups == Some(seq![""@])
            &&& secrets.verbs == seq!["get"@, "update"@, "patch"@]
            &&& events.resources == Some(seq!["events"@])
            &&& events.resource_names is None
            &&& events.api_groups == Some(seq![""@])
            &&& events.verbs == seq!["create"@, "patch"@]
        }),
{
}

/// What a rule says is what its lists hold.
pub proof fn rules_say_what_they_hold(rule: PolicyRule, texts: Vec<String>)
    ensures
        rule@.verbs == crate::objects::texts_of(rule.verbs@),
        rule.resources == Some(texts) ==> rule@.resources == Some(
            crate::objects::texts_of(texts@),
        ),
        rule.resource_names == Some(texts) ==> rule@.resource_names == Some(
            crate::objects::texts_of(texts@),
        ),
        rule.api_groups == Some(texts) ==> rule@.api_groups == Some(
            crate::objects::texts_of(texts@),
        ),
        rule@.resources is Some <==> rule.resources is Some,
        rule@.resource_names is Some <==> rule.resource_names is Some,
        rule@.api_groups is Some <==> rule.api_groups is Some,
{
}

// ---- the environment ----

/// Whether a variable of a name is set once.
pub open spec fn set_once(env: Seq<EnvVarView>, name: Seq<char>) -> bool {
    exists|i: int|
        0 <= i < env.len() && (#[trigger] env[i]).name == name && (forall|j: int|
            0 <= j < env.len() && (#[trigger] env[j]).name == name ==> j == i)
}

/// Whether a variable is set once, to a value.
pub open spec fn is_set(env: Seq<EnvVarView>, name: Seq<char>, value: Seq<char>) -> bool {
    set_once(env, name) && env.contains(
        EnvVarView { name, value: Some(value), secret_key_ref: None, field_ref: None },
    )
}

/// Whether a variable is set once, to a key of a Secret.
pub open spec fn is_secret(
    env: Seq<EnvVarView>,
    name: Seq<char>,
    secret: Seq<char>,
    key: Seq<char>,
) -> bool {
    set_once(env, name) && env.contains(
        EnvVarView { name, value: None, secret_key_ref: Some((secret, key)), field_ref: None },
    )
}

/// Whether a variable is set once, to a field of the pod.
pub open spec fn is_field(env: Seq<EnvVarView>, name: Seq<char>, path: Seq<char>) -> bool {
    set_once(env, name) && env.contains(
        EnvVarView { name, value: None, secret_key_ref: None, field_ref: Some(path) },
    )
}

/// Whether a variable is not set at all.
pub open spec fn is_unset(env: Seq<EnvVarView>, name: Seq<char>) -> bool {
    forall|i: int| 0 <= i < env.len() ==> (#[trigger] env[i]).name != name
}

/// What a variable says is what its fields hold.
pub proof fn variables_say_what_they_hold(env: EnvVar)
    ensures
        env@.name == env.name@,
        env@.value is Some <==> env.value is Some,
        env.value is Some ==> env@.value->0 == env.value->0@,
        env@.secret_key_ref is Some <==> env.secret_key_ref is Some,
        env.secret_key_ref is Some ==> env@.secret_key_ref->0 == (
            env.secret_key_ref->0.name@,
            env.secret_key_ref->0.key@,
        ),
        env@.field_ref is Some <==> env.field_ref is Some,
        env.field_ref is Some ==> env@.field_ref->0 == env.field_ref->0@,
{
}

proof fn lemma_variable_names()
    ensures
        "TS_AUTHKEY"@.len() == 10,
        "TS_HOSTNAME"@.len() == 11,
        "TS_EXTRA_ARGS"@.len() == 13,
        "TS_EXTRA_ARGS"@[0] == 'T',
        "TS_TAILSCALED_EXTRA_ARGS"@.len() == 24,
        "TS_SERVE_CONFIG"@.len() == 15,
        "TS_USERSPACE"@.len() == 12,
        "TS_KUBE_SECRET"@.len() == 14,
        "POD_NAME"@.len() == 8,
        "POD_NAMESPACE"@.len() == 13,
        "POD_NAMESPACE"@[0] == 'P',
        "NODE_IP"@.len() == 7,
        "NODE_PORT"@.len() == 9,
        "TS_DEBUG_PRETENDPOINT"@.len() == 21,
        "TS_SOCKS5_SERVER"@.len() == 16,
{
    reveal_strlit("TS_AUTHKEY");
    reveal_strlit("TS_HOSTNAME");
    reveal_strlit("TS_EXTRA_ARGS");
    reveal_strlit("TS_TAILSCALED_EXTRA_ARGS");
    reveal_strlit("TS_SERVE_CONFIG");
    reveal_strlit("TS_USERSPACE");
    reveal_strlit("TS_KUBE_SECRET");
    reveal_strlit("POD_NAME");
    reveal_strlit("POD_NAMESPACE");
    reveal_strlit("NODE_IP");
    reveal_strlit("NODE_PORT");
    reveal_strlit("TS_DEBUG_PRETENDPOINT");
    reveal_strlit("TS_SOCKS5_SERVER");
}

/// A number that tells the names of the variables apart.
spec fn mark(name: Seq<char>) -> int {
    if name.len() == 13 && name[0] == 'P' {
        0
    } else {
        name.len() as int
    }
}

spec fn are_marked(env: Seq<EnvVarView>, marks: Seq<int>) -> bool {
    env.len() == marks.len() && forall|i: int|
        0 <= i < env.len() ==> mark((#[trigger] env[i]).name) == marks[i]
}

proof fn lemma_set_once(env: Seq<EnvVarView>, marks: Seq<int>, i: int)
    requires
        are_marked(env, marks),
        marks.no_duplicates(),
        0 <= i < env.len(),
    ensures
        set_once(env, env[i].name),
        env.contains(env[i]),
{
    assert forall|j: int| 0 <= j < env.len() && (#[trigger] env[j]).name == env[i].name implies j
        == i by {
        assert(mark(env[j].name) == marks[j]);
        assert(mark(env[i].name) == marks[i]);
    }
}

proof fn lemma_unset(env: Seq<EnvVarView>, marks: Seq<int>, name: Seq<char>)
    requires
        are_marked(env, marks),
        !marks.contains(mark(name)),
    ensures
        is_unset(env, name),
{
    assert forall|i: int| 0 <= i < env.len() implies (#[trigger] env[i]).name != name by {
        assert(mark(env[i].name) == marks[i]);
    }
}

spec fn marks_of(networking: ProxyNetworking, egress: Option<EgressView>) -> Seq<int> {
    let common = seq![10int, 11, 13, 24, 15, 12, 14, 8, 0];
    let advertised = if networking is NodePort {
        common + seq![7int, 9, 21]
    } else {
        common
    };
    if egress is Some {
        advertised.push(16)
    } else {
        advertised
    }
}

proof fn lemma_marked(
    names: ProxyNames,
    url: Seq<char>,
    hostname: Seq<char>,
    networking: ProxyNetworking,
    egress: Option<EgressView>,
)
    ensures
        are_marked(
            proxy_env(names, url, hostname, networking, egress),
            marks_of(networking, egress),
        ),
        marks_of(networking, egress).no_duplicates(),
        networking is Host ==> !marks_of(networking, egress).contains(7),
        networking is Host ==> !marks_of(networking, egress).contains(9),
        networking is Host ==> !marks_of(networking, egress).contains(21),
        egress is None ==> !marks_of(networking, egress).contains(16),
{
    lemma_variable_names();
}

/// The proxy container is told all it needs, each by one variable: its key,
/// the hostname that it joins the tailnet under, where it logs in, the serve
/// config, that it runs in userspace, and where it keeps its state.
pub proof fn proxy_is_told_what_it_needs(
    sts: StatefulSet,
    names: ProxyNames,
    image: Seq<char>,
    url: Seq<char>,
    hostname: Seq<char>,
    networking: ProxyNetworking,
    egress: Option<EgressView>,
)
    requires
        is_proxy_statefulset(sts, names, image, url, hostname, networking, egress),
    ensures
        ({
            let env = views(sts.spec->0.template.spec->0.containers@[0].env->0@);
            &&& is_set(env, "TS_HOSTNAME"@, hostname)
            &&& is_secret(env, "TS_AUTHKEY"@, names.config_secret_name@, "key"@)
            &&& is_set(
                env,
                "TS_EXTRA_ARGS"@,
                "--login-server="@ + url
                    + " --advertise-exit-node=false --snat-subnet-routes=false --stateful-filtering=false"@,
            )
            &&& is_set(env, "TS_SERVE_CONFIG"@, "/etc/serve/serve.json"@)
            &&& is_set(env, "TS_USERSPACE"@, "true"@)
            &&& is_set(env, "TS_KUBE_SECRET"@, names.state_secret_name@)
            &&& is_field(env, "POD_NAME"@, "metadata.name"@)
            &&& is_field(env, "POD_NAMESPACE"@, "metadata.namespace"@)
        }),
{
    let env = proxy_env(names, url, hostname, networking, egress);
    let marks = marks_of(networking, egress);
    lemma_marked(names, url, hostname, networking, egress);
    lemma_set_once(env, marks, 0);
    lemma_set_once(env, marks, 1);
    lemma_set_once(env, marks, 2);
    lemma_set_once(env, marks, 4);
    lemma_set_once(env, marks, 5);
    lemma_set_once(env, marks, 6);
    lemma_set_once(env, marks, 7);
    lemma_set_once(env, marks, 8);
}

/// On the pod network the socket of the daemon is pinned and it is told which
/// address of the node to advertise; on the host network it picks a port and
/// finds its addresses itself. It listens for the forwarders of an egress
/// proxy, and only there.
pub proof fn proxy_is_told_its_network(
    sts: StatefulSet,
    names: ProxyNames,
    image: Seq<char>,
    url: Seq<char>,
    hostname: Seq<char>,
    networking: ProxyNetworking,
    egress: Option<EgressView>,
)
    requires
        is_proxy_statefulset(sts, names, image, url, hostname, networking, egress),
    ensures
        ({
            let pod = sts.spec->0.template.spec->0;
            let env = views(pod.containers@[0].env->0@);
            &&& networking is NodePort ==> is_set(
                env,
                "TS_TAILSCALED_EXTRA_ARGS"@,
                "--port=41641 --socket=/tmp/tailscaled.sock"@,
            ) && is_field(env, "NODE_IP"@, "status.hostIP"@) && is_set(
                env,
                "NODE_PORT"@,
                decimal(networking->node_port as int),
            ) && is_set(env, "TS_DEBUG_PRETENDPOINT"@, "$(NODE_IP):$(NODE_PORT)"@)
                && pod.host_network is None && pod.dns_policy is None
            &&& networking is Host ==> is_set(
                env,
                "TS_TAILSCALED_EXTRA_ARGS"@,
                "--port=0 --socket=/tmp/tailscaled.sock"@,
            ) && is_unset(env, "NODE_IP"@) && is_unset(env, "NODE_PORT"@) && is_unset(
                env,
                "TS_DEBUG_PRETENDPOINT"@,
            ) && pod.host_network == Some(true) && pod.dns_policy is Some && pod.dns_policy->0@
                == "ClusterFirstWithHostNet"@
            &&& egress is Some ==> is_set(env, "TS_SOCKS5_SERVER"@, "localhost:1055"@)
            &&& egress is None ==> is_unset(env, "TS_SOCKS5_SERVER"@)
        }),
{
    let env = proxy_env(names, url, hostname, networking, egress);
    let marks = marks_of(networking, egress);
    lemma_variable_names();
    lemma_marked(names, url, hostname, networking, egress);
    lemma_set_once(env, marks, 3);
    if networking is NodePort {
        lemma_set_once(env, marks, 9);
        lemma_set_once(env, marks, 10);
        lemma_set_once(env, marks, 11);
    } else {
        lemma_unset(env, marks, "NODE_IP"@);
        lemma_unset(env, marks, "NODE_PORT"@);
        lemma_unset(env, marks, "TS_DEBUG_PRETENDPOINT"@);
    }
    if egress is Some {
        lemma_set_once(env, marks, env.len() - 1);
    } else {
        lemma_unset(env, marks, "TS_SOCKS5_SERVER"@);
    }
}

/// Two proxies that join under different hostnames, or log in at different
/// places, are different.
pub proof fn hostname_and_login_tell_proxies_apart(
    sts: StatefulSet,
    names: ProxyNames,
    image: Seq<char>,
    url: Seq<char>,
    other_url: Seq<char>,
    hostname: Seq<char>,
    other_hostname: Seq<char>,
    networking: ProxyNetworking,
    egress: Option<EgressView>,
)
    requires
        is_proxy_statefulset(sts, names, image, url, hostname, networking, egress),
        is_proxy_statefulset(sts, names, image, other_url, other_hostname, networking, egress),
    ensures
        hostname == other_hostname,
        url == other_url,
{
    let env = views(sts.spec->0.template.spec->0.containers@[0].env->0@);
    assert(env[1].value == Some(hostname));
    assert(env[1].value == Some(other_hostname));
    let tail =
        " --advertise-exit-node=false --snat-subnet-routes=false --stateful-filtering=false"@;
    let args = "--login-server="@ + url + tail;
    let other_args = "--login-server="@ + other_url + tail;
    assert(env[2].value == Some(args));
    assert(env[2].value == Some(other_args));
    let from = "--login-server="@.len() as int;
    assert(url =~= args.subrange(from, args.len() - tail.len()));
    assert(other_url =~= other_args.subrange(from, args.len() - tail.len()));
}

// ---- the pod ----

/// The StatefulSet runs one pod, governed by the proxy's Service, under the
/// proxy's own account, with the given image and without privileges, and
/// mounts the serve config for reading.
pub proof fn pod_runs_the_proxy(
    sts: StatefulSet,
    names: ProxyNames,
    image: Seq<char>,
    url: Seq<char>,
    hostname: Seq<char>,
    networking: ProxyNetworking,
    egress: Option<EgressView>,
)
    requires
        is_proxy_statefulset(sts, names, image, url, hostname, networking, egress),
    ensures
        sts.metadata.name is Some && sts.metadata.name->0@ == names.proxy_name@,
        sts.spec is Some && sts.spec->0.replicas == Some(1i32),
        sts.spec->0.service_name is Some && sts.spec->0.service_name->0@
            == names.wg_service_name@,
        sts.spec->0.template.spec is Some,
        ({
            let pod = sts.spec->0.template.spec->0;
            let proxy = pod.containers@[0];
            &&& pod.service_account_name is Some && pod.service_account_name->0@
                == names.proxy_name@
            &&& pod.security_context is Some && pod.security_context->0.seccomp_profile is Some
                && pod.security_context->0.seccomp_profile->0.type_@ == "RuntimeDefault"@
                && pod.security_context->0.seccomp_profile->0.localhost_profile is None
            &&& proxy.name@ == "proxy"@
            &&& proxy.image is Some && proxy.image->0@ == image
            &&& proxy.args is None
            &&& proxy.security_context is Some
                && proxy.security_context->0.allow_privilege_escalation == Some(false)
                && proxy.security_context->0.add_capabilities is None
                && proxy.security_context->0.drop_capabilities is Some
                && proxy.security_context->0.drop_capabilities->0@.len() == 1
                && proxy.security_context->0.drop_capabilities->0@[0]@ == "ALL"@
            &&& proxy.volume_mounts is Some && proxy.volume_mounts->0@.len() == 1
                && proxy.volume_mounts->0@[0].name@ == "serve-config"@
                && proxy.volume_mounts->0@[0].mount_path@ == "/etc/serve"@
                && proxy.volume_mounts->0@[0].read_only == Some(true)
            &&& pod.volumes is Some && pod.volumes->0@.len() == 1 && pod.volumes->0@[0].name@
                == "serve-config"@ && pod.volumes->0@[0].config_map is Some
                && pod.volumes->0@[0].config_map->0.name@ == names.serve_configmap_name@
            &&& egress is None ==> pod.containers@.len() == 1
        }),
{
    let proxy = sts.spec->0.template.spec->0.containers@[0];
    let dropped = proxy.security_context->0.drop_capabilities->0@;
    assert(crate::objects::texts_of(dropped) == seq!["ALL"@]);
    assert(crate::objects::texts_of(dropped).len() == 1);
    assert(crate::objects::texts_of(dropped)[0] == dropped[0]@);
}

/// For each forward an egress pod has one more container, of the forwarder
/// image, which listens on the port and dials the host's port through the
/// proxy's daemon.
pub proof fn pod_forwards_each_port(
    sts: StatefulSet,
    names: ProxyNames,
    image: Seq<char>,
    url: Seq<char>,
    hostname: Seq<char>,
    networking: ProxyNetworking,
    egress: EgressView,
    i: int,
)
    requires
        is_proxy_statefulset(sts, names, image, url, hostname, networking, Some(egress)),
        0 <= i < egress.forwards.len(),
    ensures
        ({
            let pod = sts.spec->0.template.spec->0;
            let container = pod.containers@[i + 1];
            &&& pod.containers@.len() == egress.forwards.len() + 1
            &&& container.image is Some && container.image->0@ == egress.image
            &&& container.args is Some && container.args->0@.len() == 2
            &&& container.args->0@[0]@ == "TCP-LISTEN:"@ + decimal(egress.forwards[i].0 as int)
                + ",fork,reuseaddr"@
            &&& container.args->0@[1]@ == "SOCKS5-CONNECT:"@ + "localhost:1055"@ + ":"@
                + egress.host + ":"@ + decimal(egress.forwards[i].1 as int)
            &&& container.name@ == "forward-"@ + decimal(egress.forwards[i].0 as int)
            &&& container.env is None
            &&& container.volume_mounts is None
            &&& container.security_context is Some
                && container.security_context->0.allow_privilege_escalation == Some(false)
            &&& list_of(container.security_context->0.drop_capabilities) == Some(seq!["ALL"@])
            &&& list_of(container.security_context->0.add_capabilities) == Some(
                seq!["NET_BIND_SERVICE"@],
            )
        }),
{
    let container = sts.spec->0.template.spec->0.containers@[i + 1];
    assert(crate::resources::is_forwarder(
        container,
        egress.image,
        egress.host,
        egress.forwards[i + 1 - 1],
    ));
    let args = crate::objects::texts_of(container.args->0@);
    assert(args == crate::resources::forwarder_args(egress.host, egress.forwards[i]));
    assert(args.len() == 2);
    assert(args[0] == container.args->0@[0]@);
    assert(args[1] == container.args->0@[1]@);
}

/// What an egress proxy forwards is what its fields hold, and a list is the
/// texts in it.
pub proof fn forwarding_says_what_it_holds(egress: Egress, texts: Vec<String>)
    ensures
        egress_of(Some(egress)) == Some(
            (EgressView {
                image: egress.image@,
                host: egress.host@,
                forwards: egress.forwards@,
            }),
        ),
        egress_of(None::<Egress>) is None,
        list_of(Some(texts)) == Some(crate::objects::texts_of(texts@)),
        list_of(None::<Vec<String>>) is None,
{
}

/// A volume holds what it is said to hold and nothing else.
pub proof fn volumes_hold_one_thing(
    volume: Volume,
    name: Seq<char>,
    held: Seq<char>,
    type_: Seq<char>,
)
    ensures
        volume.holds(VolumeView::ConfigMap { name, config_map: held }) <==> volume.name@ == name
            && volume.config_map is Some && volume.config_map->0.name@ == held
            && volume.empty_dir is None && volume.host_path is None,
        volume.holds(VolumeView::EmptyDir { name }) <==> volume.name@ == name
            && volume.config_map is None && volume.empty_dir is Some
            && volume.empty_dir->0.medium is None && volume.host_path is None,
        volume.holds(VolumeView::HostPath { name, path: held, type_ }) <==> volume.name@ == name
            && volume.config_map is None && volume.empty_dir is None && volume.host_path is Some
            && volume.host_path->0.path@ == held && volume.host_path->0.type_ is Some
            && volume.host_path->0.type_->0@ == type_,
{
}

// ---- the policy ----

/// A selector selects an object exactly where the object has each of its
/// labels with its value; without labels it selects every object.
pub proof fn selectors_ask_for_their_labels(
    labels: TextMap<String>,
    object: Map<Seq<char>, Seq<char>>,
)
    ensures
        selects(labels_of(Some(labels)), object) <==> forall|key: Seq<char>| #[trigger]
            labels@.contains_key(key) ==> object.contains_key(key) && object[key] == labels@[key]@,
        selects(labels_of(None::<TextMap<String>>), object),
{
    let wanted = labels_of(Some(labels));
    assert(forall|key: Seq<char>| #[trigger]
        wanted.contains_key(key) <==> labels@.contains_key(key));
    assert(forall|key: Seq<char>| #[trigger]
        labels@.contains_key(key) ==> wanted.contains_key(key) && wanted[key] == labels@[key]@);
}

/// A pod gets past the peers of some consumers exactly where one of them names
/// its namespace and asks for labels that it has.
pub proof fn consumers_get_past(
    consumers: Seq<EgressConsumer>,
    namespace: Map<Seq<char>, Seq<char>>,
    ns: Seq<char>,
    pod: Map<Seq<char>, Seq<char>>,
    i: int,
)
    requires
        0 <= i < consumers.len(),
        namespace.contains_key("kubernetes.io/metadata.name"@),
        namespace["kubernetes.io/metadata.name"@] == ns,
    ensures
        consumer_peers(consumers).len() == consumers.len(),
        lets_through(consumer_peers(consumers)[i], namespace, pod) <==> consumers[i].namespace@ == ns
            && (consumers[i].pods is Some ==> forall|key: Seq<char>| #[trigger]
            consumers[i].pods->0@.contains_key(key) ==> pod.contains_key(key) && pod[key]
                == consumers[i].pods->0@[key]@),
{
    let peer = consumer_peers(consumers)[i];
    assert(peer.namespaces.contains_key("kubernetes.io/metadata.name"@));
    if consumers[i].pods is Some {
        selectors_ask_for_their_labels(consumers[i].pods->0, pod);
    } else {
        let none = labels_of(None::<TextMap<String>>);
        assert(forall|key: Seq<char>| !#[trigger] none.contains_key(key));
    }
}

/// A peer lets a pod through exactly where it selects its namespace and the
/// pod itself; what a peer says is what its selectors ask for.
pub proof fn peers_select_namespace_and_pod(
    peer: NetworkPolicyPeer,
    namespace: Map<Seq<char>, Seq<char>>,
    pod: Map<Seq<char>, Seq<char>>,
)
    ensures
        lets_through(peer@, namespace, pod) <==> selects(
            labels_of(peer.namespace_selector.match_labels),
            namespace,
        ) && selects(labels_of(peer.pod_selector.match_labels), pod),
{
}

/// The policy has the proxy's name, guards exactly the pods with the given
/// labels, concerns what comes in, and lets the peers through in one rule.
pub proof fn policy_guards_the_pods(
    policy: NetworkPolicy,
    name: Seq<char>,
    pod_labels: Map<Seq<char>, Seq<char>>,
    peers: Seq<PeerView>,
)
    requires
        is_consumers_policy(policy, name, pod_labels, peers),
    ensures
        policy.metadata.name is Some && policy.metadata.name->0@ == name,
        policy.spec is Some,
        labels_of(policy.spec->0.pod_selector.match_labels) == pod_labels,
        policy.spec->0.policy_types is Some && policy.spec->0.policy_types->0@.len() == 1
            && policy.spec->0.policy_types->0@[0]@ == "Ingress"@,
        policy.spec->0.ingress is Some && policy.spec->0.ingress->0@.len() == 1,
        policy.spec->0.ingress->0@[0].from is Some,
        policy.spec->0.ingress->0@[0].from->0@.len() == peers.len(),
        forall|i: int|
            0 <= i < peers.len() ==> (#[trigger] policy.spec->0.ingress->0@[0].from->0@[i])@
                == peers[i],
{
    let types = policy.spec->0.policy_types->0@;
    assert(crate::objects::texts_of(types).len() == 1);
    assert(crate::objects::texts_of(types)[0] == types[0]@);
    let from = policy.spec->0.ingress->0@[0].from->0@;
    assert(views(from).len() == from.len());
    assert forall|i: int| 0 <= i < peers.len() implies (#[trigger] from[i])@ == peers[i] by {
        assert(views(from)[i] == from[i]@);
    }
}

// ---- the serve config and the binding ----

/// The ConfigMap of a proxy has its name, and the serve config, printed, under
/// its file's name and nothing else.
pub proof fn serve_config_stands_under_its_file(
    config_map: ConfigMap,
    name: Seq<char>,
    serve_json: Json,
    other: Seq<char>,
)
    requires
        is_serve_configmap(config_map, name, serve_json),
    ensures
        config_map.metadata.name is Some && config_map.metadata.name->0@ == name,
        config_map.data is Some,
        config_map.data->0@.contains_key("serve.json"@),
        config_map.data->0@["serve.json"@]@ == pretty_json(serve_json),
        other != "serve.json"@ ==> !config_map.data->0@.contains_key(other),
{
    assert(config_map.data->0@.dom().contains(other) <==> other == "serve.json"@);
    assert(config_map.data->0@.dom().contains("serve.json"@));
}

/// The rights of a proxy go to its own account in its namespace and to nobody
/// else.
pub proof fn rights_go_to_the_proxy_alone(
    binding: RoleBinding,
    name: Seq<char>,
    namespace: Seq<char>,
)
    requires
        is_proxy_binding(binding, name, namespace),
    ensures
        binding.metadata.name is Some && binding.metadata.name->0@ == name,
        binding.role_ref.api_group@ == "rbac.authorization.k8s.io"@,
        binding.role_ref.kind@ == "Role"@,
        binding.role_ref.name@ == name,
        binding.subjects is Some && binding.subjects->0@.len() == 1,
        binding.subjects->0@[0].kind@ == "ServiceAccount"@,
        binding.subjects->0@[0].name@ == name,
        binding.subjects->0@[0].namespace is Some && binding.subjects->0@[0].namespace->0@
            == namespace,
{
}

} // verus!
