//! Tailnet exposure for Services that are not of type ExternalName. The proxy
//! of such a Service joins the tailnet as a node of its own and passes what
//! reaches it on to the Service, in one of two modes:
//!
//! - tsnet: in userspace, one raw TCP forward for each declared port, to the
//!   Service's cluster DNS name. Needs no privileges.
//! - tun: in the kernel, all traffic to the Service's ClusterIP, through a TUN
//!   device. The key is ephemeral, so that headscale drops the node should its
//!   deletion ever be missed.

use crate::annotations::{AnnotationError, IngressAnnotations, ProxyMode};
use crate::auth_key::{clone_texts, AuthKeyRequest, AuthKeyRequestView, AuthKeyStatus};
use crate::context::Context;
use crate::error::{Error, Requeue};
use crate::forwards::{
    build_expose_serve_json, collect_expose_tcp_ports, same_ports, tcp_ports, tcp_serve_json,
};
use crate::instance::HeadscaleInstance;
use crate::names::{service_base, ProxyNames};
use crate::objects::{text_of, texts_of, Secret, Service, ServicePort};
use crate::provision::{
    asks_anew, done, fail, failed, gate, gate_step, login_url, login_url_of, plan_tags, provisioned,
    registration_notice, report_registration, tags_request, Gate, ProvisionAction,
    ProvisionActionView, ProvisionKnown,
};
use crate::resources::ProxyNetworking;
use crate::sort::views;
use crate::step::{
    maybe_noting, noting, quietly, warning, Notice, NoticeView, Step, StepView, Warning,
};
use crate::text::{join4, same_text};
use vstd::pervasive::unreached;
use vstd::prelude::*;
use vstd::string::*;

verus! {

// ---- configuration ----

/// Egress settings on an exposed Service can only be a mistake.
pub const EGRESS_SETTINGS: &'static str =
    "'tailnet-fqdn' and 'consumers' do not apply to exposed Services; they configure egress ExternalName Services";

pub const ACCESS_IGNORED: &'static str =
    "'access' is not supported on exposed Services; grant access to this proxy's tag in the tailnet ACL instead";

pub const HOST_NETWORK_IGNORED: &'static str =
    "'host-network' does not apply to tun-mode proxies; ignored";

pub const NO_TCP_PORTS: &'static str =
    "exposed Service declares no TCP ports; add spec.ports so the tsnet proxy knows what to forward";

pub const NO_CLUSTER_IP: &'static str =
    "tun mode requires a ClusterIP to DNAT to; headless Services can only be exposed in tsnet mode";

/// Settings that are ignored, with a warning each.
pub open spec fn ignored_settings(annotations: IngressAnnotations) -> Seq<NoticeView> {
    let access = if annotations.access@.len() > 0 {
        seq![warning("IgnoredConfig"@, ACCESS_IGNORED@)]
    } else {
        Seq::empty()
    };
    let host_network = if annotations.mode == ProxyMode::Tun && annotations.host_network {
        seq![warning("IgnoredConfig"@, HOST_NETWORK_IGNORED@)]
    } else {
        Seq::empty()
    };
    access + host_network
}

/// Whether the proxy goes on the host network. A kernel proxy never does: it
/// would fight the node's own daemon.
pub open spec fn on_host_network(annotations: IngressAnnotations) -> bool {
    annotations.mode != ProxyMode::Tun && annotations.host_network
}

/// The ClusterIP of a Service, where it has one.
pub open spec fn cluster_ip_of(svc: Service) -> Option<Seq<char>> {
    match svc.spec {
        Some(spec) => match spec.cluster_ip {
            Some(ip) => if ip@ != "None"@ && ip@.len() > 0 {
                Some(ip@)
            } else {
                None
            },
            None => None,
        },
        None => None,
    }
}

/// The ports of a tsnet proxy.
pub open spec fn exposed_ports(svc: Service) -> Seq<i32> {
    tcp_ports(svc).map_values(|port: ServicePort| port.port)
}

/// What is wrong with an exposed Service, where something is: nothing to
/// forward, or nothing to forward to.
pub open spec fn expose_problem(svc: Service, annotations: IngressAnnotations) -> Option<Seq<char>> {
    if annotations.mode == ProxyMode::Tsnet && exposed_ports(svc).len() == 0 {
        Some(NO_TCP_PORTS@)
    } else if annotations.mode == ProxyMode::Tun && cluster_ip_of(svc) is None {
        Some(NO_CLUSTER_IP@)
    } else {
        None
    }
}

/// The cluster DNS name of a Service.
pub open spec fn cluster_host(name: Seq<char>, ns: Seq<char>) -> Seq<char> {
    name + "."@ + ns + ".svc.cluster.local"@
}

/// The key of an exposed Service's proxy.
pub open spec fn expose_key_request(annotations: IngressAnnotations) -> AuthKeyRequestView {
    AuthKeyRequestView {
        user: text_of(annotations.user),
        managed_key_tags: texts_of(annotations.managed_key_tags@),
        auto_tag: None,
        expiry_secs: annotations.auth_key_expiry_secs,
        reusable: annotations.auth_key_reusable,
        ephemeral: annotations.mode == ProxyMode::Tun,
    }
}

// ---- what is done, from the end to the beginning ----

/// The end: left-overs of an egress Service are dropped, the Service is
/// claimed, the tags of the node are set, and it is said how far the proxy is.
pub open spec fn expose_finish_step(
    svc: Service,
    annotations: IngressAnnotations,
    state: Secret,
    known: ProvisionKnown,
) -> StepView<ProvisionActionView> {
    let tags = texts_of(annotations.managed_key_tags@);
    let ns = svc.metadata.own_namespace();
    let name = svc.metadata.any_name();
    match known.network_policy_deleted {
        None => quietly(ProvisionActionView::DeleteNetworkPolicy),
        Some(Err(e)) => failed(e),
        Some(Ok(())) => match known.claimed {
            None => quietly(ProvisionActionView::Claim),
            Some(Err(e)) => failed(Error::Kube(e)),
            Some(Ok(())) => if tags_request(state, tags) is Some && known.tagged is None {
                quietly(tags_request(state, tags)->0)
            } else {
                maybe_noting(
                    registration_notice(
                        state,
                        "proxy for exposed Service '"@,
                        name,
                        "proxy-authkey-"@ + service_base(ns, name),
                    ),
                    provisioned(known, state, tags),
                )
            },
        },
    }
}

/// The proxy itself, by mode.
pub open spec fn expose_deploy_step(
    svc: Service,
    ctx: Context,
    annotations: IngressAnnotations,
    instance: HeadscaleInstance,
    state: Secret,
    known: ProvisionKnown,
) -> StepView<ProvisionActionView> {
    let login_url = login_url_of(instance, annotations.headscale_ref@, ctx.operator_namespace@);
    match known.networking {
        None => quietly(
            ProvisionActionView::ApplyWireguard {
                host_network: on_host_network(annotations),
                forwards: Seq::empty(),
            },
        ),
        Some(Err(e)) => failed(e),
        Some(Ok(networking)) => match known.rbac {
            None => quietly(ProvisionActionView::ApplyRbac),
            Some(Err(e)) => failed(e),
            Some(Ok(())) => match annotations.mode {
                ProxyMode::Tsnet => match known.serve_config {
                    None => quietly(
                        ProvisionActionView::ApplyServeConfig {
                            serve_json: tcp_serve_json(
                                cluster_host(
                                    svc.metadata.any_name(),
                                    svc.metadata.own_namespace(),
                                ),
                                same_ports(exposed_ports(svc)),
                            ),
                        },
                    ),
                    Some(Err(e)) => failed(e),
                    Some(Ok(())) => match known.statefulset {
                        None => quietly(
                            ProvisionActionView::ApplyStatefulSet {
                                login_url,
                                hostname: annotations.hostname@,
                                networking,
                                egress: None,
                            },
                        ),
                        Some(Err(e)) => failed(e),
                        Some(Ok(())) => expose_finish_step(svc, annotations, state, known),
                    },
                },
                ProxyMode::Tun => match known.statefulset {
                    None => quietly(
                        ProvisionActionView::ApplyTunStatefulSet {
                            login_url,
                            hostname: annotations.hostname@,
                            dest_ip: cluster_ip_of(svc)->0,
                            node_port: networking->node_port,
                        },
                    ),
                    Some(Err(e)) => failed(e),
                    Some(Ok(())) => match known.serve_config_deleted {
                        None => quietly(ProvisionActionView::DeleteServeConfig),
                        Some(Err(e)) => failed(e),
                        Some(Ok(())) => expose_finish_step(svc, annotations, state, known),
                    },
                },
            },
        },
    }
}

/// The registration: headscale is connected to, a proxy of another instance is
/// moved, a stale key is dropped, and a key and a state Secret are made sure
/// of.
pub open spec fn expose_register_step(
    svc: Service,
    ctx: Context,
    annotations: IngressAnnotations,
    instance: HeadscaleInstance,
    known: ProvisionKnown,
) -> StepView<ProvisionActionView> {
    let headscale_ref = annotations.headscale_ref@;
    match known.connected {
        None => quietly(ProvisionActionView::Connect { headscale_ref }),
        Some(Err(e)) => failed(Error::Kube(e)),
        Some(Ok(())) => match known.retargeted {
            None => quietly(ProvisionActionView::ResetIfRetargeted { headscale_ref }),
            Some(Err(e)) => failed(e),
            Some(Ok(())) => match known.rotated {
                None => quietly(
                    ProvisionActionView::RotateStaleKey {
                        expiry_secs: annotations.auth_key_expiry_secs,
                    },
                ),
                Some(Err(e)) => failed(e),
                Some(Ok(())) => match known.auth_key {
                    None => quietly(
                        ProvisionActionView::EnsureAuthKey(expose_key_request(annotations)),
                    ),
                    Some(Err(e)) => failed(e),
                    Some(Ok(AuthKeyStatus::WaitingForUser)) => quietly(done(Requeue::After(30))),
                    Some(Ok(AuthKeyStatus::Ready)) => match known.state {
                        None => quietly(ProvisionActionView::EnsureState { headscale_ref }),
                        Some(Err(e)) => failed(e),
                        Some(Ok(state)) => expose_deploy_step(
                            svc,
                            ctx,
                            annotations,
                            instance,
                            state,
                            known,
                        ),
                    },
                },
            },
        },
    }
}

/// How a Service is exposed on the tailnet.
pub open spec fn expose_step(
    svc: Service,
    ctx: Context,
    parsed: Result<IngressAnnotations, AnnotationError>,
    known: ProvisionKnown,
) -> StepView<ProvisionActionView> {
    match parsed {
        Err(e) => failed(Error::Annotation(e)),
        Ok(annotations) => if annotations.tailnet_fqdn is Some || annotations.consumers@.len() > 0 {
            noting(warning("InvalidConfig"@, EGRESS_SETTINGS@), done(Requeue::AwaitChange))
        } else {
            match expose_problem(svc, annotations) {
                Some(problem) => StepView {
                    notices: ignored_settings(annotations).push(
                        warning("InvalidConfig"@, problem),
                    ),
                    action: done(Requeue::AwaitChange),
                },
                None => match gate_step(
                    known,
                    svc.metadata.own_namespace(),
                    annotations.headscale_ref@,
                    ignored_settings(annotations),
                ) {
                    Some(step) => step,
                    None => expose_register_step(
                        svc,
                        ctx,
                        annotations,
                        known.instance->0->Ok_0,
                        known,
                    ),
                },
            }
        },
    }
}

fn ignored(annotations: &IngressAnnotations) -> (notices: Vec<Notice>)
    ensures
        views(notices@) == ignored_settings(*annotations),
{
    let mut notices: Vec<Notice> = Vec::new();
    if annotations.access.len() > 0 {
        notices.push(
            Notice::Warning(
                Warning { reason: "IgnoredConfig", message: String::from_str(ACCESS_IGNORED) },
            ),
        );
    }
    if annotations.mode == ProxyMode::Tun && annotations.host_network {
        notices.push(
            Notice::Warning(
                Warning {
                    reason: "IgnoredConfig",
                    message: String::from_str(HOST_NETWORK_IGNORED),
                },
            ),
        );
    }
    proof {
        assert(views(notices@) =~= ignored_settings(*annotations));
    }
    notices
}

fn cluster_ip(svc: &Service) -> (ip: Option<String>)
    ensures
        text_of(ip) == cluster_ip_of(*svc),
{
    match &svc.spec {
        Some(spec) => match &spec.cluster_ip {
            Some(ip) => if !same_text(ip.as_str(), "None") && !ip.as_str().is_empty() {
                Some(ip.clone())
            } else {
                None
            },
            None => None,
        },
        None => None,
    }
}

fn clone_text(text: &Option<String>) -> (copy: Option<String>)
    ensures
        text_of(copy) == text_of(*text),
{
    match text {
        Some(text) => Some(text.clone()),
        None => None,
    }
}

fn expose_finish(
    svc: &Service,
    annotations: &IngressAnnotations,
    state: &Secret,
    known: &ProvisionKnown,
) -> (step: Step<ProvisionAction>)
    ensures
        step@ == expose_finish_step(*svc, *annotations, *state, *known),
{
    match &known.network_policy_deleted {
        None => {
            return Step::quiet(ProvisionAction::DeleteNetworkPolicy);
        },
        Some(Err(e)) => {
            return fail(e.clone());
        },
        Some(Ok(())) => {},
    }
    match &known.claimed {
        None => {
            return Step::quiet(ProvisionAction::Claim);
        },
        Some(Err(e)) => {
            return fail(Error::Kube(e.clone()));
        },
        Some(Ok(())) => {},
    }
    let mut requeue = Requeue::AwaitChange;
    if let Some(action) = plan_tags(state, clone_texts(&annotations.managed_key_tags)) {
        match &known.tagged {
            None => {
                return Step::quiet(action);
            },
            Some(Err(_)) => {
                requeue = Requeue::After(30);
            },
            Some(Ok(())) => {},
        }
    }
    let ns = svc.metadata.namespace_or_default();
    let name = svc.metadata.name_any();
    let names = ProxyNames::for_service(ns.as_str(), name.as_str());
    let notice = report_registration(
        state,
        "proxy for exposed Service '",
        name.as_str(),
        names.config_secret_name.as_str(),
    );
    Step::maybe_noted(notice, ProvisionAction::Done(Ok(requeue)))
}

fn expose_deploy(
    svc: &Service,
    ctx: &Context,
    annotations: &IngressAnnotations,
    instance: &HeadscaleInstance,
    state: &Secret,
    known: &ProvisionKnown,
) -> (step: Step<ProvisionAction>)
    requires
        annotations.mode == ProxyMode::Tun ==> cluster_ip_of(*svc) is Some && known.networking
            != Some(Ok::<ProxyNetworking, Error>(ProxyNetworking::Host)),
    ensures
        step@ == expose_deploy_step(*svc, *ctx, *annotations, *instance, *state, *known),
{
    let networking: ProxyNetworking = match &known.networking {
        None => {
            let host_network = annotations.mode != ProxyMode::Tun && annotations.host_network;
            return Step::quiet(
                ProvisionAction::ApplyWireguard { host_network, forwards: Vec::new() },
            );
        },
        Some(Err(e)) => {
            return fail(e.clone());
        },
        Some(Ok(networking)) => *networking,
    };
    match &known.rbac {
        None => {
            return Step::quiet(ProvisionAction::ApplyRbac);
        },
        Some(Err(e)) => {
            return fail(e.clone());
        },
        Some(Ok(())) => {},
    }
    let url = login_url(
        instance,
        annotations.headscale_ref.as_str(),
        ctx.operator_namespace.as_str(),
    );
    match annotations.mode {
        ProxyMode::Tsnet => {
            match &known.serve_config {
                None => {
                    let host = join4(
                        svc.metadata.name_any().as_str(),
                        ".",
                        svc.metadata.namespace_or_default().as_str(),
                        ".svc.cluster.local",
                    );
                    let ports = collect_expose_tcp_ports(svc);
                    let serve_json = build_expose_serve_json(host.as_str(), ports.as_slice());
                    return Step::quiet(ProvisionAction::ApplyServeConfig { serve_json });
                },
                Some(Err(e)) => {
                    return fail(e.clone());
                },
                Some(Ok(())) => {},
            }
            match &known.statefulset {
                None => Step::quiet(
                    ProvisionAction::ApplyStatefulSet {
                        login_url: url,
                        hostname: annotations.hostname.clone(),
                        networking,
                        egress: None,
                    },
                ),
                Some(Err(e)) => fail(e.clone()),
                Some(Ok(())) => expose_finish(svc, annotations, state, known),
            }
        },
        ProxyMode::Tun => {
            match &known.statefulset {
                None => {
                    let dest_ip = match cluster_ip(svc) {
                        Some(ip) => ip,
                        None => unreached(),
                    };
                    let node_port: i32 = match networking {
                        ProxyNetworking::NodePort { node_port } => node_port,
                        ProxyNetworking::Host => unreached(),
                    };
                    return Step::quiet(
                        ProvisionAction::ApplyTunStatefulSet {
                            login_url: url,
                            hostname: annotations.hostname.clone(),
                            dest_ip,
                            node_port,
                        },
                    );
                },
                Some(Err(e)) => {
                    return fail(e.clone());
                },
                Some(Ok(())) => {},
            }
            match &known.serve_config_deleted {
                None => Step::quiet(ProvisionAction::DeleteServeConfig),
                Some(Err(e)) => fail(e.clone()),
                Some(Ok(())) => expose_finish(svc, annotations, state, known),
            }
        },
    }
}

fn expose_register(
    svc: &Service,
    ctx: &Context,
    annotations: &IngressAnnotations,
    instance: &HeadscaleInstance,
    known: &ProvisionKnown,
) -> (step: Step<ProvisionAction>)
    requires
        annotations.mode == ProxyMode::Tun ==> cluster_ip_of(*svc) is Some && known.networking
            != Some(Ok::<ProxyNetworking, Error>(ProxyNetworking::Host)),
    ensures
        step@ == expose_register_step(*svc, *ctx, *annotations, *instance, *known),
{
    match &known.connected {
        None => {
            return Step::quiet(
                ProvisionAction::Connect { headscale_ref: annotations.headscale_ref.clone() },
            );
        },
        Some(Err(e)) => {
            return fail(Error::Kube(e.clone()));
        },
        Some(Ok(())) => {},
    }
    match &known.retargeted {
        None => {
            return Step::quiet(
                ProvisionAction::ResetIfRetargeted {
                    headscale_ref: annotations.headscale_ref.clone(),
                },
            );
        },
        Some(Err(e)) => {
            return fail(e.clone());
        },
        Some(Ok(())) => {},
    }
    match &known.rotated {
        None => {
            return Step::quiet(
                ProvisionAction::RotateStaleKey { expiry_secs: annotations.auth_key_expiry_secs },
            );
        },
        Some(Err(e)) => {
            return fail(e.clone());
        },
        Some(Ok(())) => {},
    }
    match &known.auth_key {
        None => {
            return Step::quiet(
                ProvisionAction::EnsureAuthKey(
                    AuthKeyRequest {
                        user: clone_text(&annotations.user),
                        managed_key_tags: clone_texts(&annotations.managed_key_tags),
                        auto_tag: None,
                        expiry_secs: annotations.auth_key_expiry_secs,
                        reusable: annotations.auth_key_reusable,
                        ephemeral: annotations.mode == ProxyMode::Tun,
                    },
                ),
            );
        },
        Some(Err(e)) => {
            return fail(e.clone());
        },
        Some(Ok(AuthKeyStatus::WaitingForUser)) => {
            return Step::quiet(ProvisionAction::Done(Ok(Requeue::After(30))));
        },
        Some(Ok(AuthKeyStatus::Ready)) => {},
    }
    match &known.state {
        None => Step::quiet(
            ProvisionAction::EnsureState { headscale_ref: annotations.headscale_ref.clone() },
        ),
        Some(Err(e)) => fail(e.clone()),
        Some(Ok(state)) => expose_deploy(svc, ctx, annotations, instance, state, known),
    }
}

/// Decides the next step of exposing a Service on the tailnet. `parsed` is
/// what its config annotation was parsed to.
///
/// A kernel proxy is never on the host network, because it never asks for it.
pub fn apply_expose(
    svc: &Service,
    ctx: &Context,
    parsed: &Result<IngressAnnotations, AnnotationError>,
    known: &ProvisionKnown,
) -> (step: Step<ProvisionAction>)
    requires
        parsed is Ok && parsed->Ok_0.mode == ProxyMode::Tun ==> known.networking != Some(
            Ok::<ProxyNetworking, Error>(ProxyNetworking::Host),
        ),
    ensures
        step@ == expose_step(*svc, *ctx, *parsed, *known),
{
    let annotations = match parsed {
        Err(e) => {
            return fail(Error::Annotation(e.clone()));
        },
        Ok(annotations) => annotations,
    };
    if annotations.tailnet_fqdn.is_some() || annotations.consumers.len() > 0 {
        return Step::warned(
            "InvalidConfig",
            String::from_str(EGRESS_SETTINGS),
            ProvisionAction::Done(Ok(Requeue::AwaitChange)),
        );
    }
    let mut notices = ignored(annotations);
    let problem = if annotations.mode == ProxyMode::Tsnet && collect_expose_tcp_ports(svc).len()
        == 0 {
        Some(NO_TCP_PORTS)
    } else if annotations.mode == ProxyMode::Tun && cluster_ip(svc).is_none() {
        Some(NO_CLUSTER_IP)
    } else {
        None
    };
    if let Some(problem) = problem {
        let ghost before = notices@;
        notices.push(
            Notice::Warning(
                Warning { reason: "InvalidConfig", message: String::from_str(problem) },
            ),
        );
        let step = Step { notices, action: ProvisionAction::Done(Ok(Requeue::AwaitChange)) };
        proof {
            assert(step@.notices =~= views(before).push(warning("InvalidConfig"@, problem@)));
        }
        return step;
    }
    let ns = svc.metadata.namespace_or_default();
    match gate(known, ns.as_str(), &annotations.headscale_ref, notices) {
        Gate::Stop(step) => step,
        Gate::Pass(instance) => expose_register(svc, ctx, annotations, instance, known),
    }
}

// ---- laws ----

/// Nothing is asked for that is known already, so that exposing a Service comes
/// to an end.
pub proof fn expose_asks_once(
    svc: Service,
    ctx: Context,
    parsed: Result<IngressAnnotations, AnnotationError>,
    known: ProvisionKnown,
)
    ensures
        asks_anew(known, expose_step(svc, ctx, parsed, known).action),
{
}

/// A kernel proxy asks for the pod network, whatever the annotation says.
pub proof fn kernel_proxy_stays_on_the_pod_network(
    svc: Service,
    ctx: Context,
    annotations: IngressAnnotations,
    known: ProvisionKnown,
    host_network: bool,
    forwards: Seq<(i32, i32)>,
)
    requires
        annotations.mode == ProxyMode::Tun,
        expose_step(svc, ctx, Ok(annotations), known).action == (
        ProvisionActionView::ApplyWireguard { host_network, forwards }),
    ensures
        !host_network,
{
}

/// The key of a kernel proxy is ephemeral, that of another proxy is not.
pub proof fn kernel_proxy_key_is_ephemeral(
    svc: Service,
    ctx: Context,
    annotations: IngressAnnotations,
    known: ProvisionKnown,
    request: AuthKeyRequestView,
)
    requires
        expose_step(svc, ctx, Ok(annotations), known).action == ProvisionActionView::EnsureAuthKey(
            request,
        ),
    ensures
        request.ephemeral == (annotations.mode == ProxyMode::Tun),
        request.auto_tag is None,
{
}

/// A stale key is looked for before a key is made sure of, so that one that was
/// dropped is replaced in the same run.
pub proof fn stale_key_is_dropped_before_a_new_one(
    svc: Service,
    ctx: Context,
    parsed: Result<IngressAnnotations, AnnotationError>,
    known: ProvisionKnown,
)
    requires
        expose_step(svc, ctx, parsed, known).action is EnsureAuthKey,
    ensures
        known.rotated is Some,
        known.rotated->0 is Ok,
        known.retargeted is Some,
        known.retargeted->0 is Ok,
{
}

/// Nothing is provisioned for a Service whose namespace is going away, or is
/// not covered by a ready instance.
pub proof fn nothing_is_exposed_behind_the_gates(
    svc: Service,
    ctx: Context,
    parsed: Result<IngressAnnotations, AnnotationError>,
    known: ProvisionKnown,
)
    requires
        ({
            let action = expose_step(svc, ctx, parsed, known).action;
            !(action is GetNamespace || action is GetInstance || action is Deregister
                || action is Release || action is Done)
        }),
    ensures
        known.namespace is Some,
        known.namespace->0 is Ok,
        known.namespace->0->Ok_0.deletion_timestamp is None,
        known.instance is Some,
        known.instance->0 is Ok,
        known.instance->0->Ok_0.allows(svc.metadata.own_namespace()),
        known.instance->0->Ok_0.ready == Some(true),
{
}

} // verus!
