//! The reconciliation of annotated Services: which are adopted, how the proxy
//! of an ExternalName Service is provisioned, and how a Service is given up.

use crate::annotations::{
    config_text, is_targeted, targets, AnnotationError, IngressAccessGrant, IngressAnnotations,
    ProxyMode,
};
use crate::auth_key::{clone_texts, AuthKeyRequest, AuthKeyRequestView, AuthKeyStatus};
use crate::context::Context;
use crate::dns::{egress_shape, is_egress_shape, proxy_address, rewrite_target};
use crate::error::{Error, KubeError, Requeue};
use crate::forwards::{
    build_tcp_serve_json, collect_tcp_forwards, forward_of, tcp_ports, tcp_serve_json,
};
use crate::instance::HeadscaleInstance;
use crate::json::{json_of, null_value, object1, object3, text_value, texts, Json};
use crate::names::{service_base, ProxyNames};
use crate::objects::{
    ports_of, text_of, texts_of, IntOrString, ObjectMeta, Resource, Secret, Service, ServicePort,
};
use crate::provision::{
    asks_anew, done, fail, failed, gate, gate_step, login_url, login_url_of, plan_tags, provisioned,
    registration_notice, release_step, release_unmanaged, report_registration, tags_request,
    teardown_of, Gate, ProvisionAction, ProvisionActionView, ProvisionKnown,
};
use crate::resources::{
    consumer_peers, every_port_leads_to_the_tailnet_host, forwarder_args, is_proxy_statefulset,
    is_wireguard_service, peers_of, Egress, EgressView, ProxyNetworking,
};
use crate::sort::{sorted_set_is_sorted, views};
use crate::step::{
    maybe_noting, noting, quietly, warning, Notice, NoticeView, Step, StepView, Warning,
};
use crate::text::same_text;
use crate::workload::{list_of, PeerView, StatefulSet};
use vstd::prelude::*;
use vstd::string::*;

verus! {

// ---- adoption ----

/// What reconciling a Service asks for.
#[derive(Debug)]
pub enum ReconcileAction {
    GetInstance { name: String },
    /// Apply or clean up, guarded by the finalizer.
    Finalize,
    Done(Result<Requeue, Error>),
}

/// What an action of reconciling a Service says.
pub enum ReconcileActionView {
    GetInstance { name: Seq<char> },
    Finalize,
    Done(Result<Requeue, Error>),
}

impl View for ReconcileAction {
    type V = ReconcileActionView;

    open spec fn view(&self) -> ReconcileActionView {
        match self {
            ReconcileAction::GetInstance { name } => ReconcileActionView::GetInstance {
                name: name@,
            },
            ReconcileAction::Finalize => ReconcileActionView::Finalize,
            ReconcileAction::Done(result) => ReconcileActionView::Done(*result),
        }
    }
}

/// How a Service is reconciled. A Service without our finalizer is adopted
/// only where it has the right shape, is meant for this deployment, has a
/// valid annotation, and is in a namespace that its instance covers; else it
/// is left alone. One with our finalizer is always taken care of.
pub open spec fn reconcile_step(
    svc: Service,
    ctx: Context,
    our_finalizer: Seq<char>,
    parsed: Result<IngressAnnotations, AnnotationError>,
    instance: Option<Result<HeadscaleInstance, KubeError>>,
) -> ReconcileActionView {
    let adopted = svc.metadata.finalizers_of().contains(our_finalizer);
    let ignore = ReconcileActionView::Done(Ok(Requeue::AwaitChange));
    if !adopted && !egress_shape(svc) {
        ignore
    } else if svc.metadata.namespace is None {
        ReconcileActionView::Done(Err(Error::MissingNamespace))
    } else if adopted {
        ReconcileActionView::Finalize
    } else if !targets(svc.metadata, ctx.operator_namespace@, ctx.claim_default) {
        ignore
    } else {
        match parsed {
            Err(_) => ignore,
            Ok(annotations) => match instance {
                None => ReconcileActionView::GetInstance { name: annotations.headscale_ref@ },
                Some(Ok(instance)) => if instance.allows(svc.metadata.namespace->0@) {
                    ReconcileActionView::Finalize
                } else {
                    ignore
                },
                Some(Err(e)) => if e.not_found() {
                    ReconcileActionView::Finalize
                } else {
                    ReconcileActionView::Done(Err(Error::Kube(e)))
                },
            },
        }
    }
}

/// Decides the next step of reconciling a Service. `parsed` is what its config
/// annotation was parsed to, `instance` the answer to the lookup of its
/// instance, once it was asked for.
pub fn reconcile(
    svc: &Service,
    ctx: &Context,
    our_finalizer: &str,
    parsed: &Result<IngressAnnotations, AnnotationError>,
    instance: &Option<Result<HeadscaleInstance, KubeError>>,
) -> (action: ReconcileAction)
    ensures
        action@ == reconcile_step(*svc, *ctx, our_finalizer@, *parsed, *instance),
{
    let adopted = svc.metadata.has_finalizer(our_finalizer);
    if !is_egress_shape(svc) && !adopted {
        return ReconcileAction::Done(Ok(Requeue::AwaitChange));
    }
    let ns = match &svc.metadata.namespace {
        None => {
            return ReconcileAction::Done(Err(Error::MissingNamespace));
        },
        Some(ns) => ns,
    };
    if adopted {
        return ReconcileAction::Finalize;
    }
    if !is_targeted(svc, ctx) {
        return ReconcileAction::Done(Ok(Requeue::AwaitChange));
    }
    let annotations = match parsed {
        Err(_) => {
            return ReconcileAction::Done(Ok(Requeue::AwaitChange));
        },
        Ok(annotations) => annotations,
    };
    match instance {
        None => ReconcileAction::GetInstance { name: annotations.headscale_ref.clone() },
        Some(Ok(instance)) => if instance.namespace_allowed(ns.as_str()) {
            ReconcileAction::Finalize
        } else {
            ReconcileAction::Done(Ok(Requeue::AwaitChange))
        },
        Some(Err(e)) => if e.is_not_found() {
            ReconcileAction::Finalize
        } else {
            ReconcileAction::Done(Err(Error::Kube(e.clone())))
        },
    }
}

/// A Service of a namespace that its instance does not cover never gets our
/// finalizer, and neither does one of another shape or deployment, or one with
/// an invalid annotation.
pub proof fn only_eligible_services_are_adopted(
    svc: Service,
    ctx: Context,
    our_finalizer: Seq<char>,
    parsed: Result<IngressAnnotations, AnnotationError>,
    instance: Option<Result<HeadscaleInstance, KubeError>>,
)
    requires
        !svc.metadata.finalizers_of().contains(our_finalizer),
        reconcile_step(svc, ctx, our_finalizer, parsed, instance) is Finalize,
    ensures
        egress_shape(svc),
        targets(svc.metadata, ctx.operator_namespace@, ctx.claim_default),
        parsed is Ok,
        instance is Some,
        instance->0 is Ok ==> instance->0->Ok_0.allows(svc.metadata.own_namespace()),
        instance->0 is Err ==> instance->0->Err_0.not_found(),
{
}

/// An adopted Service is taken care of, whatever became of its shape, its
/// annotation or its instance.
pub proof fn adopted_service_is_taken_care_of(
    svc: Service,
    ctx: Context,
    our_finalizer: Seq<char>,
    parsed: Result<IngressAnnotations, AnnotationError>,
    instance: Option<Result<HeadscaleInstance, KubeError>>,
)
    requires
        svc.metadata.finalizers_of().contains(our_finalizer),
        svc.metadata.namespace is Some,
    ensures
        reconcile_step(svc, ctx, our_finalizer, parsed, instance) is Finalize,
{
}

// ---- provisioning ----

pub const NO_EXTERNAL_NAME: &'static str = "ExternalName Service has no spec.externalName";

pub const NO_TAILNET_FQDN: &'static str = "ExternalName Service has no 'tailnet-fqdn'";

pub const NO_TCP_PORTS: &'static str =
    "ExternalName Service declares no TCP ports; add spec.ports to expose it";

pub const ACCESS_IGNORED: &'static str =
    "'access' does not apply to ExternalName Services; ignored";

pub const HOST_NETWORK_IGNORED: &'static str =
    "'host-network' does not apply to ExternalName Services; ignored";

/// Settings that are ignored on an ExternalName Service, with a warning each:
/// its proxy is a client of the tailnet, so that nobody can be granted access
/// to it, and always stays on the pod network.
pub open spec fn egress_ignored_settings(annotations: IngressAnnotations) -> Seq<NoticeView> {
    let access = if annotations.access@.len() > 0 {
        seq![warning("IgnoredConfig"@, ACCESS_IGNORED@)]
    } else {
        Seq::empty()
    };
    if annotations.host_network {
        access.push(warning("IgnoredConfig"@, HOST_NETWORK_IGNORED@))
    } else {
        access
    }
}

/// Whether a Service has an external name. Which one does not matter: it is
/// replaced by the proxy's.
pub open spec fn names_external_host(svc: Service) -> bool {
    svc.spec is Some && svc.spec->0.external_name is Some
        && svc.spec->0.external_name->0@.len() > 0
}

/// The forwards of a Service: ports to listen on with ports of the tailnet
/// host.
pub open spec fn forwards_of(svc: Service) -> Seq<(i32, i32)> {
    tcp_ports(svc).map_values(|port: ServicePort| forward_of(port))
}

/// What is wrong with an ExternalName Service, where something is.
pub open spec fn egress_problem(svc: Service, annotations: IngressAnnotations) -> Option<Seq<char>> {
    if !names_external_host(svc) {
        Some(NO_EXTERNAL_NAME@)
    } else if annotations.tailnet_host() is None {
        Some(NO_TAILNET_FQDN@)
    } else if forwards_of(svc).len() == 0 {
        Some(NO_TCP_PORTS@)
    } else {
        None
    }
}

/// The key of an ExternalName Service's proxy.
pub open spec fn egress_key_request(annotations: IngressAnnotations) -> AuthKeyRequestView {
    AuthKeyRequestView {
        user: text_of(annotations.user),
        managed_key_tags: texts_of(annotations.managed_key_tags@),
        auto_tag: None,
        expiry_secs: annotations.auth_key_expiry_secs,
        reusable: annotations.auth_key_reusable,
        ephemeral: false,
    }
}

/// The end: the tags of the node are set, it is said how far the proxy is, and
/// the Service is claimed.
pub open spec fn egress_finish_step(
    svc: Service,
    annotations: IngressAnnotations,
    state: Secret,
    known: ProvisionKnown,
) -> StepView<ProvisionActionView> {
    let tags = texts_of(annotations.managed_key_tags@);
    let ns = svc.metadata.own_namespace();
    let name = svc.metadata.any_name();
    if tags_request(state, tags) is Some && known.tagged is None {
        quietly(tags_request(state, tags)->0)
    } else {
        match known.claimed {
            None => maybe_noting(
                registration_notice(
                    state,
                    "proxy for Service '"@,
                    name,
                    "proxy-authkey-"@ + service_base(ns, name),
                ),
                ProvisionActionView::Claim,
            ),
            Some(Err(e)) => failed(Error::Kube(e)),
            Some(Ok(())) => quietly(provisioned(known, state, tags)),
        }
    }
}

/// Who may reach the proxy: the consumers, where there are any, else every
/// pod.
pub open spec fn egress_guard_step(annotations: IngressAnnotations, known: ProvisionKnown) -> Option<
    StepView<ProvisionActionView>,
> {
    if annotations.consumers@.len() > 0 {
        match known.network_policy {
            None => Some(
                quietly(
                    ProvisionActionView::ApplyNetworkPolicy {
                        peers: consumer_peers(annotations.consumers@),
                    },
                ),
            ),
            Some(Err(e)) => Some(failed(e)),
            Some(Ok(())) => None,
        }
    } else {
        match known.network_policy_deleted {
            None => Some(quietly(ProvisionActionView::DeleteNetworkPolicy)),
            Some(Err(e)) => Some(failed(e)),
            Some(Ok(())) => None,
        }
    }
}

/// What the proxy of a Service forwards into the tailnet.
pub open spec fn egress_forwards(svc: Service, ctx: Context, annotations: IngressAnnotations) -> EgressView {
    EgressView {
        image: ctx.socat_image@,
        host: annotations.tailnet_host()->0,
        forwards: forwards_of(svc),
    }
}

/// The proxy itself: its serve config, its rights, who may reach it, and its
/// StatefulSet. The ports of the Service are forwarded to the tailnet host:
/// for pods by the forwarders of the StatefulSet, and for those peers on the
/// tailnet that may reach the node by the serve config. With that in place the
/// Service is pointed at the proxy.
pub open spec fn egress_deploy_step(
    svc: Service,
    ctx: Context,
    annotations: IngressAnnotations,
    instance: HeadscaleInstance,
    state: Secret,
    known: ProvisionKnown,
) -> StepView<ProvisionActionView> {
    match known.serve_config {
        None => quietly(
            ProvisionActionView::ApplyServeConfig {
                serve_json: tcp_serve_json(annotations.tailnet_host()->0, forwards_of(svc)),
            },
        ),
        Some(Err(e)) => failed(e),
        Some(Ok(())) => match known.rbac {
            None => quietly(ProvisionActionView::ApplyRbac),
            Some(Err(e)) => failed(e),
            Some(Ok(())) => match egress_guard_step(annotations, known) {
                Some(step) => step,
                None => match known.statefulset {
                    None => quietly(
                        ProvisionActionView::ApplyStatefulSet {
                            login_url: login_url_of(
                                instance,
                                annotations.headscale_ref@,
                                ctx.operator_namespace@,
                            ),
                            hostname: annotations.hostname@,
                            networking: known.networking->0->Ok_0,
                            egress: Some(egress_forwards(svc, ctx, annotations)),
                        },
                    ),
                    Some(Err(e)) => failed(e),
                    Some(Ok(())) => match known.pointed {
                        None => quietly(
                            ProvisionActionView::PointAtProxy {
                                external_name: rewrite_target(
                                    svc.metadata.own_namespace(),
                                    svc.metadata.any_name(),
                                    ctx.operator_namespace@,
                                ),
                            },
                        ),
                        Some(Err(e)) => failed(Error::Kube(e)),
                        Some(Ok(())) => egress_finish_step(svc, annotations, state, known),
                    },
                },
            },
        },
    }
}

/// The registration: headscale is connected to, the Service of the proxy
/// applied, with a port for each forward, a proxy of another instance moved, a
/// stale key dropped, and a key and a state Secret made sure of.
pub open spec fn egress_register_step(
    svc: Service,
    ctx: Context,
    annotations: IngressAnnotations,
    instance: HeadscaleInstance,
    known: ProvisionKnown,
) -> StepView<ProvisionActionView> {
    let headscale_ref = annotations.headscale_ref@;
    match known.connected {
        None => quietly(ProvisionActionView::Connect { headscale_ref }),
        Some(Err(e)) => failed(Error::Kube(e)),
        Some(Ok(())) => match known.networking {
            None => quietly(
                ProvisionActionView::ApplyWireguard {
                    host_network: false,
                    forwards: forwards_of(svc),
                },
            ),
            Some(Err(e)) => failed(e),
            Some(Ok(_)) => match known.retargeted {
                None => quietly(ProvisionActionView::ResetIfRetargeted { headscale_ref }),
                Some(Err(e)) => failed(e),
                Some(Ok(())) => match known.rotated {
                    None => quietly(
                        ProvisionActionView::RotateStaleKey {
                            expiry_secs: annotations.auth_key_expiry_secs,
                        },
                    ),
                    Some(Err(e)) => failed(e),
                    Some(Ok(())) => match known.auth_key {
                        None => quietly(
                            ProvisionActionView::EnsureAuthKey(egress_key_request(annotations)),
                        ),
                        Some(Err(e)) => failed(e),
                        Some(Ok(AuthKeyStatus::WaitingForUser)) => quietly(
                            done(Requeue::After(30)),
                        ),
                        Some(Ok(AuthKeyStatus::Ready)) => match known.state {
                            None => quietly(ProvisionActionView::EnsureState { headscale_ref }),
                            Some(Err(e)) => failed(e),
                            Some(Ok(state)) => egress_deploy_step(
                                svc,
                                ctx,
                                annotations,
                                instance,
                                state,
                                known,
                            ),
                        },
                    },
                },
            },
        },
    }
}

/// How the proxy of an ExternalName Service is provisioned. A Service that
/// lost its shape, or is meant for another deployment, is given up.
pub open spec fn apply_step(
    svc: Service,
    ctx: Context,
    parsed: Result<IngressAnnotations, AnnotationError>,
    known: ProvisionKnown,
) -> StepView<ProvisionActionView> {
    if !egress_shape(svc) || !targets(svc.metadata, ctx.operator_namespace@, ctx.claim_default) {
        release_step(known, teardown_of(svc.metadata), None)
    } else {
        match parsed {
            Err(e) => failed(Error::Annotation(e)),
            Ok(annotations) => match gate_step(
                known,
                svc.metadata.own_namespace(),
                annotations.headscale_ref@,
                egress_ignored_settings(annotations),
            ) {
                Some(step) => step,
                None => match egress_problem(svc, annotations) {
                    Some(problem) => noting(
                        warning("InvalidConfig"@, problem),
                        done(Requeue::AwaitChange),
                    ),
                    None => egress_register_step(
                        svc,
                        ctx,
                        annotations,
                        known.instance->0->Ok_0,
                        known,
                    ),
                },
            },
        }
    }
}

fn egress_ignored(annotations: &IngressAnnotations) -> (notices: Vec<Notice>)
    ensures
        views(notices@) == egress_ignored_settings(*annotations),
{
    let mut notices: Vec<Notice> = Vec::new();
    if annotations.access.len() > 0 {
        notices.push(
            Notice::Warning(
                Warning { reason: "IgnoredConfig", message: String::from_str(ACCESS_IGNORED) },
            ),
        );
    }
    if annotations.host_network {
        notices.push(
            Notice::Warning(
                Warning {
                    reason: "IgnoredConfig",
                    message: String::from_str(HOST_NETWORK_IGNORED),
                },
            ),
        );
    }
    proof {
        assert(views(notices@) =~= egress_ignored_settings(*annotations));
    }
    notices
}

fn has_external_name(svc: &Service) -> (named: bool)
    ensures
        named == names_external_host(*svc),
{
    match &svc.spec {
        Some(spec) => match &spec.external_name {
            Some(host) => !host.as_str().is_empty(),
            None => false,
        },
        None => false,
    }
}

fn egress_guard(annotations: &IngressAnnotations, known: &ProvisionKnown) -> (step: Option<
    Step<ProvisionAction>,
>)
    ensures
        match step {
            Some(step) => egress_guard_step(*annotations, *known) == Some(step@),
            None => egress_guard_step(*annotations, *known) is None,
        },
{
    if annotations.consumers.len() > 0 {
        match &known.network_policy {
            None => Some(
                Step::quiet(
                    ProvisionAction::ApplyNetworkPolicy { peers: peers_of(&annotations.consumers) },
                ),
            ),
            Some(Err(e)) => Some(fail(e.clone())),
            Some(Ok(())) => None,
        }
    } else {
        match &known.network_policy_deleted {
            None => Some(Step::quiet(ProvisionAction::DeleteNetworkPolicy)),
            Some(Err(e)) => Some(fail(e.clone())),
            Some(Ok(())) => None,
        }
    }
}

fn egress_finish(
    svc: &Service,
    annotations: &IngressAnnotations,
    state: &Secret,
    known: &ProvisionKnown,
) -> (step: Step<ProvisionAction>)
    ensures
        step@ == egress_finish_step(*svc, *annotations, *state, *known),
{
    let mut requeue = Requeue::AwaitChange;
    if let Some(action) = plan_tags(state, clone_texts(&annotations.managed_key_tags)) {
        match &known.tagged {
            None => {
                return Step::quiet(action);
            },
            Some(Err(_)) => {
                requeue = Requeue::After(30);
            },
            Some(Ok(())) => {},
        }
    }
    match &known.claimed {
        None => {
            let ns = svc.metadata.namespace_or_default();
            let name = svc.metadata.name_any();
            let names = ProxyNames::for_service(ns.as_str(), name.as_str());
            let notice = report_registration(
                state,
                "proxy for Service '",
                name.as_str(),
                names.config_secret_name.as_str(),
            );
            Step::maybe_noted(notice, ProvisionAction::Claim)
        },
        Some(Err(e)) => fail(Error::Kube(e.clone())),
        Some(Ok(())) => Step::quiet(ProvisionAction::Done(Ok(requeue))),
    }
}

fn egress_deploy(
    svc: &Service,
    ctx: &Context,
    annotations: &IngressAnnotations,
    instance: &HeadscaleInstance,
    networking: &ProxyNetworking,
    state: &Secret,
    known: &ProvisionKnown,
) -> (step: Step<ProvisionAction>)
    requires
        annotations.tailnet_host() is Some,
        known.networking == Some(Ok::<ProxyNetworking, Error>(*networking)),
    ensures
        step@ == egress_deploy_step(*svc, *ctx, *annotations, *instance, *state, *known),
{
    let host = match annotations.egress_host() {
        Some(host) => host,
        None => vstd::pervasive::unreached(),
    };
    let forwards = collect_tcp_forwards(svc);
    match &known.serve_config {
        None => {
            let serve_json = build_tcp_serve_json(host.as_str(), forwards.as_slice());
            return Step::quiet(ProvisionAction::ApplyServeConfig { serve_json });
        },
        Some(Err(e)) => {
            return fail(e.clone());
        },
        Some(Ok(())) => {},
    }
    match &known.rbac {
        None => {
            return Step::quiet(ProvisionAction::ApplyRbac);
        },
        Some(Err(e)) => {
            return fail(e.clone());
        },
        Some(Ok(())) => {},
    }
    if let Some(step) = egress_guard(annotations, known) {
        return step;
    }
    match &known.statefulset {
        None => {
            let url = login_url(
                instance,
                annotations.headscale_ref.as_str(),
                ctx.operator_namespace.as_str(),
            );
            return Step::quiet(
                ProvisionAction::ApplyStatefulSet {
                    login_url: url,
                    hostname: annotations.hostname.clone(),
                    networking: *networking,
                    egress: Some(Egress { image: ctx.socat_image.clone(), host, forwards }),
                },
            );
        },
        Some(Err(e)) => {
            return fail(e.clone());
        },
        Some(Ok(())) => {},
    }
    match &known.pointed {
        None => {
            let external_name = proxy_address(
                svc.metadata.namespace_or_default().as_str(),
                svc.metadata.name_any().as_str(),
                ctx.operator_namespace.as_str(),
            );
            Step::quiet(ProvisionAction::PointAtProxy { external_name })
        },
        Some(Err(e)) => fail(Error::Kube(e.clone())),
        Some(Ok(())) => egress_finish(svc, annotations, state, known),
    }
}

fn egress_register(
    svc: &Service,
    ctx: &Context,
    annotations: &IngressAnnotations,
    instance: &HeadscaleInstance,
    known: &ProvisionKnown,
) -> (step: Step<ProvisionAction>)
    requires
        annotations.tailnet_host() is Some,
    ensures
        step@ == egress_register_step(*svc, *ctx, *annotations, *instance, *known),
{
    match &known.connected {
        None => {
            return Step::quiet(
                ProvisionAction::Connect { headscale_ref: annotations.headscale_ref.clone() },
            );
        },
        Some(Err(e)) => {
            return fail(Error::Kube(e.clone()));
        },
        Some(Ok(())) => {},
    }
    let networking = match &known.networking {
        None => {
            return Step::quiet(
                ProvisionAction::ApplyWireguard {
                    host_network: false,
                    forwards: collect_tcp_forwards(svc),
                },
            );
        },
        Some(Err(e)) => {
            return fail(e.clone());
        },
        Some(Ok(networking)) => networking,
    };
    match &known.retargeted {
        None => {
            return Step::quiet(
                ProvisionAction::ResetIfRetargeted {
                    headscale_ref: annotations.headscale_ref.clone(),
                },
            );
        },
        Some(Err(e)) => {
            return fail(e.clone());
        },
        Some(Ok(())) => {},
    }
    match &known.rotated {
        None => {
            return Step::quiet(
                ProvisionAction::RotateStaleKey { expiry_secs: annotations.auth_key_expiry_secs },
            );
        },
        Some(Err(e)) => {
            return fail(e.clone());
        },
        Some(Ok(())) => {},
    }
    match &known.auth_key {
        None => {
            let user = match &annotations.user {
                Some(user) => Some(user.clone()),
                None => None,
            };
            return Step::quiet(
                ProvisionAction::EnsureAuthKey(
                    AuthKeyRequest {
                        user,
                        managed_key_tags: clone_texts(&annotations.managed_key_tags),
                        auto_tag: None,
                        expiry_secs: annotations.auth_key_expiry_secs,
                        reusable: annotations.auth_key_reusable,
                        ephemeral: false,
                    },
                ),
            );
        },
        Some(Err(e)) => {
            return fail(e.clone());
        },
        Some(Ok(AuthKeyStatus::WaitingForUser)) => {
            return Step::quiet(ProvisionAction::Done(Ok(Requeue::After(30))));
        },
        Some(Ok(AuthKeyStatus::Ready)) => {},
    }
    match &known.state {
        None => Step::quiet(
            ProvisionAction::EnsureState { headscale_ref: annotations.headscale_ref.clone() },
        ),
        Some(Err(e)) => fail(e.clone()),
        Some(Ok(state)) => egress_deploy(
            svc,
            ctx,
            annotations,
            instance,
            networking,
            state,
            known,
        ),
    }
}

/// Decides the next step of provisioning the proxy of an ExternalName Service.
/// `parsed` is what its config annotation was parsed to.
pub fn apply(
    svc: &Service,
    ctx: &Context,
    parsed: &Result<IngressAnnotations, AnnotationError>,
    known: &ProvisionKnown,
) -> (step: Step<ProvisionAction>)
    ensures
        step@ == apply_step(*svc, *ctx, *parsed, *known),
{
    if !is_egress_shape(svc) || !is_targeted(svc, ctx) {
        return release_unmanaged(svc, known);
    }
    let annotations = match parsed {
        Err(e) => {
            return fail(Error::Annotation(e.clone()));
        },
        Ok(annotations) => annotations,
    };
    let ns = svc.metadata.namespace_or_default();
    let notices = egress_ignored(annotations);
    let instance = match gate(known, ns.as_str(), &annotations.headscale_ref, notices) {
        Gate::Stop(step) => {
            return step;
        },
        Gate::Pass(instance) => instance,
    };
    let problem = if !has_external_name(svc) {
        Some(NO_EXTERNAL_NAME)
    } else if annotations.egress_host().is_none() {
        Some(NO_TAILNET_FQDN)
    } else if collect_tcp_forwards(svc).len() == 0 {
        Some(NO_TCP_PORTS)
    } else {
        None
    };
    match problem {
        Some(problem) => Step::warned(
            "InvalidConfig",
            String::from_str(problem),
            ProvisionAction::Done(Ok(Requeue::AwaitChange)),
        ),
        None => egress_register(svc, ctx, annotations, instance, known),
    }
}

/// Nothing is asked for that is known already, so that provisioning comes to an
/// end.
pub proof fn apply_asks_once(
    svc: Service,
    ctx: Context,
    parsed: Result<IngressAnnotations, AnnotationError>,
    known: ProvisionKnown,
)
    ensures
        asks_anew(known, apply_step(svc, ctx, parsed, known).action),
{
}

/// A Service that lost its shape, or is meant for another deployment, is only
/// ever given up: its proxy is taken down, then it is released.
pub proof fn unmanaged_service_is_given_up(
    svc: Service,
    ctx: Context,
    parsed: Result<IngressAnnotations, AnnotationError>,
    known: ProvisionKnown,
)
    requires
        !egress_shape(svc) || !targets(svc.metadata, ctx.operator_namespace@, ctx.claim_default),
    ensures
        ({
            let action = apply_step(svc, ctx, parsed, known).action;
            action is Deregister || action is DeleteResources || action is Release || action is Done
        }),
        apply_step(svc, ctx, parsed, known).action is Release ==> known.torn_down is Some
            && known.torn_down->0 is Ok,
{
}

/// Nothing is provisioned for a Service whose namespace is going away, or is
/// not covered by a ready instance.
pub proof fn nothing_is_provisioned_behind_the_gates(
    svc: Service,
    ctx: Context,
    parsed: Result<IngressAnnotations, AnnotationError>,
    known: ProvisionKnown,
)
    requires
        ({
            let action = apply_step(svc, ctx, parsed, known).action;
            !(action is GetNamespace || action is GetInstance || action is Deregister
                || action is DeleteResources || action is Release || action is Done)
        }),
    ensures
        known.namespace is Some,
        known.namespace->0 is Ok,
        known.namespace->0->Ok_0.deletion_timestamp is None,
        known.instance is Some,
        known.instance->0 is Ok,
        known.instance->0->Ok_0.allows(svc.metadata.own_namespace()),
        known.instance->0->Ok_0.ready == Some(true),
{
}

/// The proxy of an ExternalName Service stays on the pod network, whatever the
/// annotation says.
pub proof fn egress_proxy_stays_on_the_pod_network(
    svc: Service,
    ctx: Context,
    parsed: Result<IngressAnnotations, AnnotationError>,
    known: ProvisionKnown,
)
    ensures
        apply_step(svc, ctx, parsed, known).action matches ProvisionActionView::ApplyWireguard {
            host_network,
            forwards,
        } ==> !host_network,
{
}

/// The StatefulSet, whose pod needs them, is applied only after the key, the
/// state Secret, the serve config and the rights are there, and who may reach
/// the pod is settled.
pub proof fn pod_comes_after_what_it_needs(
    svc: Service,
    ctx: Context,
    parsed: Result<IngressAnnotations, AnnotationError>,
    known: ProvisionKnown,
)
    requires
        apply_step(svc, ctx, parsed, known).action is ApplyStatefulSet,
    ensures
        known.networking is Some && known.networking->0 is Ok,
        known.auth_key == Some(Ok::<AuthKeyStatus, Error>(AuthKeyStatus::Ready)),
        known.state is Some && known.state->0 is Ok,
        known.serve_config is Some && known.serve_config->0 is Ok,
        known.rbac is Some && known.rbac->0 is Ok,
        parsed is Ok,
        parsed->Ok_0.tailnet_fqdn is Some,
        parsed->Ok_0.consumers@.len() > 0 ==> known.network_policy is Some
            && known.network_policy->0 is Ok,
        parsed->Ok_0.consumers@.len() == 0 ==> known.network_policy_deleted is Some
            && known.network_policy_deleted->0 is Ok,
{
}

/// No proxy is registered or run for a Service without a tailnet host to
/// forward to: it is warned about, and left until it changes.
pub proof fn tailnet_fqdn_is_required(
    svc: Service,
    ctx: Context,
    annotations: IngressAnnotations,
    known: ProvisionKnown,
)
    requires
        annotations.tailnet_host() is None,
    ensures
        ({
            let action = apply_step(svc, ctx, Ok(annotations), known).action;
            action is GetNamespace || action is GetInstance || action is Deregister
                || action is DeleteResources || action is Release || action is Done
        }),
{
}

/// The ports are forwarded to the tailnet host, whatever external name the
/// Service has, and to no other: by the Service of the proxy, the forwarders
/// of its pod and its serve config alike.
pub proof fn ports_are_forwarded_to_the_tailnet_host(
    svc: Service,
    ctx: Context,
    annotations: IngressAnnotations,
    known: ProvisionKnown,
)
    ensures
        ({
            let action = apply_step(svc, ctx, Ok(annotations), known).action;
            &&& action matches ProvisionActionView::ApplyWireguard { host_network, forwards }
                ==> forwards == forwards_of(svc)
            &&& action matches ProvisionActionView::ApplyServeConfig { serve_json }
                ==> annotations.tailnet_host() is Some && serve_json == tcp_serve_json(
                annotations.tailnet_host()->0,
                forwards_of(svc),
            )
            &&& action matches ProvisionActionView::ApplyStatefulSet {
                login_url,
                hostname,
                networking,
                egress,
            } ==> annotations.tailnet_host() is Some && egress == Some(
                EgressView {
                    image: ctx.socat_image@,
                    host: annotations.tailnet_host()->0,
                    forwards: forwards_of(svc),
                },
            )
        }),
{
}

/// A pod that dials a declared TCP port of the Service lands on the tailnet
/// host. The Service is an alias of the proxy's Service, which has that port;
/// a container of the proxy's pod, which runs the forwarder image, listens on
/// it and dials the host's port through the daemon.
pub proof fn declared_port_lands_on_the_tailnet_host(
    svc: Service,
    ctx: Context,
    annotations: IngressAnnotations,
    names: ProxyNames,
    proxy_svc: Service,
    sts: StatefulSet,
    image: Seq<char>,
    url: Seq<char>,
    hostname: Seq<char>,
    networking: ProxyNetworking,
    i: int,
)
    requires
        names.wg_service_name@ == "proxy-wg-"@ + service_base(
            svc.metadata.own_namespace(),
            svc.metadata.any_name(),
        ),
        is_wireguard_service(proxy_svc, names.wg_service_name@, false, forwards_of(svc)),
        is_proxy_statefulset(
            sts,
            names,
            image,
            url,
            hostname,
            networking,
            Some(egress_forwards(svc, ctx, annotations)),
        ),
        0 <= i < tcp_ports(svc).len(),
    ensures
        rewrite_target(
            svc.metadata.own_namespace(),
            svc.metadata.any_name(),
            ctx.operator_namespace@,
        ) == proxy_svc.metadata.name->0@ + "."@ + ctx.operator_namespace@ + ".svc.cluster.local"@,
        ({
            let declared = tcp_ports(svc)[i];
            let port = ports_of(proxy_svc)[i + 1];
            let container = sts.spec->0.template.spec->0.containers@[i + 1];
            &&& port.port == declared.port
            &&& text_of(port.protocol) == Some("TCP"@)
            &&& port.target_port == Some(IntOrString::Int(declared.port))
            &&& text_of(container.image) == Some(ctx.socat_image@)
            &&& list_of(container.args) == Some(
                forwarder_args(annotations.tailnet_host()->0, forward_of(declared)),
            )
        }),
{
    every_port_leads_to_the_tailnet_host(
        names,
        proxy_svc,
        false,
        sts,
        image,
        url,
        hostname,
        networking,
        egress_forwards(svc, ctx, annotations),
        i,
    );
}

/// The Service is pointed at its proxy only once the proxy runs: at the very
/// name that the tailnet host is rewritten to in the cluster.
pub proof fn service_is_pointed_at_its_proxy(
    svc: Service,
    ctx: Context,
    parsed: Result<IngressAnnotations, AnnotationError>,
    known: ProvisionKnown,
    external_name: Seq<char>,
)
    requires
        apply_step(svc, ctx, parsed, known).action == (ProvisionActionView::PointAtProxy {
            external_name,
        }),
    ensures
        known.serve_config is Some && known.serve_config->0 is Ok,
        known.statefulset is Some && known.statefulset->0 is Ok,
        external_name == rewrite_target(
            svc.metadata.own_namespace(),
            svc.metadata.any_name(),
            ctx.operator_namespace@,
        ),
{
}

/// A Service is claimed only after its proxy was applied, who may reach the
/// proxy was settled, and the Service was pointed at it.
pub proof fn claim_comes_last(
    svc: Service,
    ctx: Context,
    parsed: Result<IngressAnnotations, AnnotationError>,
    known: ProvisionKnown,
)
    requires
        apply_step(svc, ctx, parsed, known).action is Claim,
    ensures
        parsed is Ok,
        parsed->Ok_0.consumers@.len() > 0 ==> known.network_policy is Some
            && known.network_policy->0 is Ok,
        parsed->Ok_0.consumers@.len() == 0 ==> known.network_policy_deleted is Some
            && known.network_policy_deleted->0 is Ok,
        known.statefulset is Some && known.statefulset->0 is Ok,
        known.pointed is Some && known.pointed->0 is Ok,
{
}

/// Access grants, the host network and the mode of a proxy have no effect on
/// an ExternalName Service but the warnings: whatever they are, the same is
/// asked for.
pub proof fn inapplicable_settings_change_nothing(
    svc: Service,
    ctx: Context,
    annotations: IngressAnnotations,
    access: Vec<IngressAccessGrant>,
    host_network: bool,
    mode: ProxyMode,
    known: ProvisionKnown,
)
    ensures
        apply_step(svc, ctx, Ok(annotations), known).action == apply_step(
            svc,
            ctx,
            Ok(IngressAnnotations { access, host_network, mode, ..annotations }),
            known,
        ).action,
{
}

/// The node of an egress proxy has the tags of the annotation and no other.
pub proof fn egress_node_has_the_tags_of_its_key(
    svc: Service,
    ctx: Context,
    annotations: IngressAnnotations,
    known: ProvisionKnown,
)
    ensures
        apply_step(svc, ctx, Ok(annotations), known).action matches
            ProvisionActionView::EnsureAuthKey(request) ==> request.auto_tag is None
            && request.managed_key_tags == texts_of(annotations.managed_key_tags@),
        apply_step(svc, ctx, Ok(annotations), known).action matches ProvisionActionView::SetTags {
            node_id,
            tags,
        } ==> forall|tag: Seq<char>| #[trigger]
            tags.contains(tag) <==> texts_of(annotations.managed_key_tags@).contains(tag),
{
    let tags = texts_of(annotations.managed_key_tags@);
    sorted_set_is_sorted(tags);
}

/// A stale key is looked for before a key is made sure of, so that one that was
/// dropped is replaced in the same run.
pub proof fn stale_egress_key_is_dropped_before_a_new_one(
    svc: Service,
    ctx: Context,
    parsed: Result<IngressAnnotations, AnnotationError>,
    known: ProvisionKnown,
)
    requires
        apply_step(svc, ctx, parsed, known).action is EnsureAuthKey,
    ensures
        known.rotated is Some,
        known.rotated->0 is Ok,
        known.retargeted is Some,
        known.retargeted->0 is Ok,
{
}

/// The policy is never one without peers, which would let everybody through.
pub proof fn policy_names_somebody(
    svc: Service,
    ctx: Context,
    annotations: IngressAnnotations,
    known: ProvisionKnown,
    peers: Seq<PeerView>,
)
    requires
        apply_step(svc, ctx, Ok(annotations), known).action
            == (ProvisionActionView::ApplyNetworkPolicy { peers }),
    ensures
        peers.len() > 0,
        peers == consumer_peers(annotations.consumers@),
{
}

// ---- cleaning up ----

/// The instance of a Service that is deleted, as far as its annotation says.
pub open spec fn cleanup_fallback(svc: Service) -> Seq<char> {
    match config_text(svc.metadata, "headscale-ref"@) {
        Some(headscale_ref) => headscale_ref,
        None => ""@,
    }
}

/// How the proxy of a deleted Service is cleaned up.
pub open spec fn cleanup_step(svc: Service, known: ProvisionKnown) -> ProvisionActionView {
    match known.torn_down {
        None => ProvisionActionView::Deregister { headscale_ref: cleanup_fallback(svc) },
        Some(Err(e)) => ProvisionActionView::Done(Err(e)),
        Some(Ok(())) => done(Requeue::AwaitChange),
    }
}

/// Decides the next step of cleaning up for a deleted Service.
pub fn cleanup(svc: &Service, known: &ProvisionKnown) -> (action: ProvisionAction)
    ensures
        action@ == cleanup_step(*svc, *known),
{
    match &known.torn_down {
        None => {
            let headscale_ref = match IngressAnnotations::headscale_ref(svc) {
                Some(headscale_ref) => headscale_ref,
                None => String::from_str(""),
            };
            ProvisionAction::Deregister { headscale_ref }
        },
        Some(Err(e)) => ProvisionAction::Done(Err(e.clone())),
        Some(Ok(())) => ProvisionAction::Done(Ok(Requeue::AwaitChange)),
    }
}

// ---- patches ----

/// The patch that marks a Service as owned by a deployment.
pub open spec fn claim_json(
    name: Seq<char>,
    ns: Seq<char>,
    claimed_by: Seq<char>,
    operator_namespace: Seq<char>,
) -> Json {
    Json::Object(
        seq![
            ("apiVersion"@, Json::Text("v1"@)),
            ("kind"@, Json::Text("Service"@)),
            (
                "metadata"@,
                Json::Object(
                    seq![
                        ("name"@, Json::Text(name)),
                        ("namespace"@, Json::Text(ns)),
                        (
                            "annotations"@,
                            Json::Object(seq![(claimed_by, Json::Text(operator_namespace))]),
                        ),
                    ],
                ),
            ),
        ],
    )
}

/// The patch that marks a Service as owned by this deployment, under the
/// annotation `claimed_by`.
pub open spec fn claim_of(svc: Service, ctx: Context, claimed_by: Seq<char>) -> Json {
    claim_json(
        svc.metadata.any_name(),
        svc.metadata.own_namespace(),
        claimed_by,
        ctx.operator_namespace@,
    )
}

/// Builds the patch that marks a Service as owned by this deployment, under
/// the annotation `claimed_by`.
pub fn claim_patch(svc: &Service, ctx: &Context, claimed_by: &str) -> (patch: serde_json::Value)
    ensures
        json_of(patch) == claim_of(*svc, *ctx, claimed_by@),
{
    proof {
        reveal_strlit("apiVersion");
        reveal_strlit("kind");
        reveal_strlit("metadata");
        reveal_strlit("name");
        reveal_strlit("namespace");
        reveal_strlit("annotations");
        assert("apiVersion"@.len() == 10 && "kind"@.len() == 4 && "metadata"@.len() == 8);
        assert("name"@.len() == 4 && "namespace"@.len() == 9 && "annotations"@.len() == 11);
    }
    let metadata = object3(
        "name",
        text_value(svc.metadata.name_any()),
        "namespace",
        text_value(svc.metadata.namespace_or_default()),
        "annotations",
        object1(claimed_by, text_value(ctx.operator_namespace.clone())),
    );
    object3(
        "apiVersion",
        text_value(String::from_str("v1")),
        "kind",
        text_value(String::from_str("Service")),
        "metadata",
        metadata,
    )
}

/// The patch that points a Service at a host.
pub open spec fn external_name_json(external_name: Seq<char>) -> Json {
    Json::Object(
        seq![
            ("spec"@, Json::Object(seq![("externalName"@, Json::Text(external_name))])),
        ],
    )
}

/// Builds the patch that points a Service at a host.
pub fn external_name_patch(external_name: &str) -> (patch: serde_json::Value)
    ensures
        json_of(patch) == external_name_json(external_name@),
{
    object1("spec", object1("externalName", text_value(String::from_str(external_name))))
}

/// The finalizers but ours, in order.
pub open spec fn other_finalizers(meta: ObjectMeta, our_finalizer: Seq<char>) -> Seq<Seq<char>> {
    meta.finalizers_of().filter(not_ours(our_finalizer))
}

/// Which finalizers are not ours.
pub open spec fn not_ours(our_finalizer: Seq<char>) -> spec_fn(Seq<char>) -> bool {
    |finalizer: Seq<char>| finalizer != our_finalizer
}

/// The patch that releases a Service: our finalizer and the mark of ownership
/// go, on condition that the Service did not change since it was read.
pub open spec fn release_json(
    resource_version: Seq<char>,
    finalizers: Seq<Seq<char>>,
    claimed_by: Seq<char>,
) -> Json {
    Json::Object(
        seq![
            (
                "metadata"@,
                Json::Object(
                    seq![
                        ("resourceVersion"@, Json::Text(resource_version)),
                        (
                            "finalizers"@,
                            Json::Array(finalizers.map_values(|f: Seq<char>| Json::Text(f))),
                        ),
                        ("annotations"@, Json::Object(seq![(claimed_by, Json::Null)])),
                    ],
                ),
            ),
        ],
    )
}

/// The resource version of an object, else nothing.
pub open spec fn version_of(meta: ObjectMeta) -> Seq<char> {
    match meta.resource_version {
        Some(version) => version@,
        None => ""@,
    }
}

/// The patch that releases a Service, from the Service as it was read last.
pub open spec fn release_of(live: Service, our_finalizer: Seq<char>, claimed_by: Seq<char>) -> Json {
    release_json(
        version_of(live.metadata),
        other_finalizers(live.metadata, our_finalizer),
        claimed_by,
    )
}

fn remaining_finalizers(meta: &ObjectMeta, our_finalizer: &str) -> (remaining: Vec<String>)
    ensures
        texts_of(remaining@) == other_finalizers(*meta, our_finalizer@),
{
    let mut remaining: Vec<String> = Vec::new();
    let ghost keep = not_ours(our_finalizer@);
    proof {
        reveal(Seq::filter);
        assert(texts_of(remaining@) =~= Seq::<Seq<char>>::empty().filter(keep));
    }
    if let Some(finalizers) = &meta.finalizers {
        let ghost all = texts_of(finalizers@);
        let mut i: usize = 0;
        proof {
            assert(all.take(0) =~= Seq::empty());
        }
        while i < finalizers.len()
            invariant
                i <= finalizers@.len(),
                all == texts_of(finalizers@),
                keep == not_ours(our_finalizer@),
                texts_of(remaining@) == all.take(i as int).filter(keep),
            decreases finalizers@.len() - i,
        {
            proof {
                reveal(Seq::filter);
                assert(all.take(i + 1).drop_last() =~= all.take(i as int));
                assert(all.take(i + 1).last() == finalizers@[i as int]@);
            }
            if !same_text(finalizers[i].as_str(), our_finalizer) {
                let ghost before = texts_of(remaining@);
                remaining.push(finalizers[i].clone());
                proof {
                    assert(texts_of(remaining@) =~= before.push(finalizers@[i as int]@));
                }
            }
            i = i + 1;
        }
        proof {
            assert(all.take(i as int) =~= all);
        }
    }
    remaining
}

/// Builds the patch that releases a Service, from the Service as it was read
/// last.
pub fn release_patch(live: &Service, our_finalizer: &str, claimed_by: &str) -> (patch:
    serde_json::Value)
    ensures
        json_of(patch) == release_of(*live, our_finalizer@, claimed_by@),
{
    let remaining = remaining_finalizers(&live.metadata, our_finalizer);
    let version = match &live.metadata.resource_version {
        Some(version) => version.clone(),
        None => String::from_str(""),
    };
    proof {
        reveal_strlit("resourceVersion");
        reveal_strlit("finalizers");
        reveal_strlit("annotations");
        assert("resourceVersion"@.len() == 15 && "finalizers"@.len() == 10);
        assert("annotations"@.len() == 11);
        assert(remaining@.map_values(|text: String| Json::Text(text@)) =~= texts_of(
            remaining@,
        ).map_values(|f: Seq<char>| Json::Text(f)));
    }
    object1(
        "metadata",
        object3(
            "resourceVersion",
            text_value(version),
            "finalizers",
            texts(&remaining),
            "annotations",
            object1(claimed_by, null_value()),
        ),
    )
}

/// A released Service no longer has our finalizer, and keeps all others.
pub proof fn release_drops_our_finalizer_only(
    meta: ObjectMeta,
    our_finalizer: Seq<char>,
    finalizer: Seq<char>,
)
    ensures
        other_finalizers(meta, our_finalizer).contains(finalizer) <==> (
        meta.finalizers_of().contains(finalizer) && finalizer != our_finalizer),
{
    lemma_filter_contains(meta.finalizers_of(), not_ours(our_finalizer), finalizer);
}

proof fn lemma_filter_contains(
    all: Seq<Seq<char>>,
    keep: spec_fn(Seq<char>) -> bool,
    text: Seq<char>,
)
    ensures
        all.filter(keep).contains(text) <==> (all.contains(text) && keep(text)),
    decreases all.len(),
{
    reveal(Seq::filter);
    if all.len() > 0 {
        let front = all.drop_last();
        let kept = front.filter(keep);
        let result = all.filter(keep);
        lemma_filter_contains(front, keep, text);
        if result.contains(text) {
            let i = result.index_of(text);
            if i < kept.len() {
                assert(kept[i] == text);
                let k = front.index_of(text);
                assert(all[k] == text);
            } else {
                assert(all[all.len() - 1] == text);
            }
        }
        if all.contains(text) && keep(text) {
            let k = all.index_of(text);
            if k < front.len() {
                assert(front[k] == text);
                let i = kept.index_of(text);
                assert(result[i] == text);
            } else {
                assert(result[kept.len() as int] == text);
            }
        }
    }
}

// ---- triggers ----

/// Labels by which the children of a Service are told apart.
#[derive(Debug)]
pub struct ParentLabels {
    pub kind: String,
    /// Value of the kind label for children of Services.
    pub service_kind: String,
    pub name: String,
    pub namespace: String,
}

/// The Service that a Secret belongs to, by its labels: its name and its
/// namespace. Children of another kind belong to nobody here.
pub open spec fn parent_service(meta: ObjectMeta, labels: ParentLabels) -> Option<
    (Seq<char>, Seq<char>),
> {
    if meta.label_of(labels.kind@) == Some(labels.service_kind@) {
        match (meta.label_of(labels.name@), meta.label_of(labels.namespace@)) {
            (Some(name), Some(ns)) => Some((name, ns)),
            _ => None,
        }
    } else {
        None
    }
}

/// The Service to reconcile when a Secret changes.
pub fn service_of_secret(meta: &ObjectMeta, labels: &ParentLabels) -> (parent: Option<
    (String, String),
>)
    ensures
        match parent {
            Some((name, ns)) => parent_service(*meta, *labels) == Some((name@, ns@)),
            None => parent_service(*meta, *labels) is None,
        },
{
    match meta.label(labels.kind.as_str()) {
        Some(kind) => if !same_text(kind.as_str(), labels.service_kind.as_str()) {
            return None;
        },
        None => {
            return None;
        },
    }
    match (meta.label(labels.name.as_str()), meta.label(labels.namespace.as_str())) {
        (Some(name), Some(ns)) => Some((name.clone(), ns.clone())),
        _ => None,
    }
}

/// Whether the annotation of an object names an instance.
pub open spec fn names_instance(meta: ObjectMeta, instance_name: Seq<char>) -> bool {
    config_text(meta, "headscale-ref"@) == Some(instance_name)
}

/// Whether an object has to be reconciled when an instance changes: its
/// annotation names the instance.
pub fn refers_to<K: Resource>(obj: &K, instance_name: &str) -> (refers: bool)
    ensures
        refers == names_instance(obj.meta_of(), instance_name@),
{
    match IngressAnnotations::headscale_ref(obj) {
        Some(headscale_ref) => same_text(headscale_ref.as_str(), instance_name),
        None => false,
    }
}

} // verus!
