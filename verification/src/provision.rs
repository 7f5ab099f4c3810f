//! What provisioning a proxy for a Service has in common, whichever way the
//! traffic goes: the answers it collects, what it asks for, the gates in front
//! of it and the report at its end.

use crate::annotations::{config_text, IngressAnnotations};
use crate::auth_key::{AuthKeyRequest, AuthKeyRequestView, AuthKeyStatus};
use crate::error::{Error, KubeError, Requeue, Status};
use crate::instance::HeadscaleInstance;
use crate::json::{json_of, Json};
use crate::objects::{texts_of, ObjectMeta, Secret, Service};
use crate::resources::{egress_of, Egress, EgressView, ProxyNetworking};
use crate::sort::{sorted_set, sorted_set_is_sorted, sorted_unique, views};
use crate::step::{
    maybe_noting, notice_of, noting, quietly, warning, Notice, NoticeView, Step, StepView, Warning,
};
use crate::support::{
    namespace_deleting, namespace_is_deleting, read_node_id, read_secret_json, read_secret_string,
    registered_node, secret_text, secret_text_list,
};
use crate::text::{join3, join5, precedes};
use crate::workload::{NetworkPolicyPeer, PeerView};
use vstd::prelude::*;

verus! {

// ---- answers and actions ----

/// What is known while a proxy is provisioned for a Service.
#[derive(Debug)]
pub struct ProvisionKnown {
    /// Whether the proxy was taken down.
    pub torn_down: Option<Result<(), Error>>,
    /// Whether the Service was released.
    pub released: Option<Result<(), Error>>,
    pub namespace: Option<Result<ObjectMeta, KubeError>>,
    pub instance: Option<Result<HeadscaleInstance, KubeError>>,
    /// Whether headscale could be connected to.
    pub connected: Option<Result<(), KubeError>>,
    /// Whether a proxy of another instance was moved.
    pub retargeted: Option<Result<(), Error>>,
    /// Whether a stale auth key was looked for.
    pub rotated: Option<Result<(), Error>>,
    pub auth_key: Option<Result<AuthKeyStatus, Error>>,
    /// The state Secret.
    pub state: Option<Result<Secret, Error>>,
    pub networking: Option<Result<ProxyNetworking, Error>>,
    pub rbac: Option<Result<(), Error>>,
    pub serve_config: Option<Result<(), Error>>,
    pub network_policy: Option<Result<(), Error>>,
    pub statefulset: Option<Result<(), Error>>,
    /// Whether the Service was pointed at the proxy.
    pub pointed: Option<Result<(), KubeError>>,
    pub serve_config_deleted: Option<Result<(), Error>>,
    pub network_policy_deleted: Option<Result<(), Error>>,
    /// Whether the tags of the node were set.
    pub tagged: Option<Result<(), Status>>,
    /// Whether the Service was marked as claimed.
    pub claimed: Option<Result<(), KubeError>>,
}

impl ProvisionKnown {
    /// Nothing is known.
    pub fn nothing() -> (known: Self)
        ensures
            known == (ProvisionKnown {
                torn_down: None,
                released: None,
                namespace: None,
                instance: None,
                connected: None,
                retargeted: None,
                rotated: None,
                auth_key: None,
                state: None,
                networking: None,
                rbac: None,
                serve_config: None,
                network_policy: None,
                statefulset: None,
                pointed: None,
                serve_config_deleted: None,
                network_policy_deleted: None,
                tagged: None,
                claimed: None,
            }),
    {
        ProvisionKnown {
            torn_down: None,
            released: None,
            namespace: None,
            instance: None,
            connected: None,
            retargeted: None,
            rotated: None,
            auth_key: None,
            state: None,
            networking: None,
            rbac: None,
            serve_config: None,
            network_policy: None,
            statefulset: None,
            pointed: None,
            serve_config_deleted: None,
            network_policy_deleted: None,
            tagged: None,
            claimed: None,
        }
    }
}

/// What provisioning asks for.
#[derive(Debug)]
pub enum ProvisionAction {
    /// Delete the node and the resources of the proxy. The instance counts
    /// where the proxy's own record does not say.
    Deregister { headscale_ref: String },
    /// Delete the resources of the proxy.
    DeleteResources,
    /// Take the finalizer and the mark of ownership off the Service.
    Release,
    GetNamespace,
    GetInstance { name: String },
    Connect { headscale_ref: String },
    ResetIfRetargeted { headscale_ref: String },
    RotateStaleKey { expiry_secs: u64 },
    EnsureAuthKey(AuthKeyRequest),
    EnsureState { headscale_ref: String },
    /// Apply the Service of the proxy: with the WireGuard socket and, for an
    /// egress proxy, with the ports that it forwards.
    ApplyWireguard { host_network: bool, forwards: Vec<(i32, i32)> },
    ApplyRbac,
    ApplyServeConfig { serve_json: serde_json::Value },
    /// Let nobody but `peers` through to the proxy.
    ApplyNetworkPolicy { peers: Vec<NetworkPolicyPeer> },
    /// Apply the StatefulSet of a userspace proxy, with what it forwards where
    /// it is an egress proxy.
    ApplyStatefulSet {
        login_url: String,
        hostname: String,
        networking: ProxyNetworking,
        egress: Option<Egress>,
    },
    /// Apply the StatefulSet of a proxy with a TUN device.
    ApplyTunStatefulSet { login_url: String, hostname: String, dest_ip: String, node_port: i32 },
    DeleteServeConfig,
    DeleteNetworkPolicy,
    SetTags { node_id: u64, tags: Vec<String> },
    /// Make the Service an alias of the proxy's own Service.
    PointAtProxy { external_name: String },
    /// Mark the Service as owned by this deployment.
    Claim,
    Done(Result<Requeue, Error>),
}

/// What an action says.
pub enum ProvisionActionView {
    Deregister { headscale_ref: Seq<char> },
    DeleteResources,
    Release,
    GetNamespace,
    GetInstance { name: Seq<char> },
    Connect { headscale_ref: Seq<char> },
    ResetIfRetargeted { headscale_ref: Seq<char> },
    RotateStaleKey { expiry_secs: u64 },
    EnsureAuthKey(AuthKeyRequestView),
    EnsureState { headscale_ref: Seq<char> },
    ApplyWireguard { host_network: bool, forwards: Seq<(i32, i32)> },
    ApplyRbac,
    ApplyServeConfig { serve_json: Json },
    ApplyNetworkPolicy { peers: Seq<PeerView> },
    ApplyStatefulSet {
        login_url: Seq<char>,
        hostname: Seq<char>,
        networking: ProxyNetworking,
        egress: Option<EgressView>,
    },
    ApplyTunStatefulSet {
        login_url: Seq<char>,
        hostname: Seq<char>,
        dest_ip: Seq<char>,
        node_port: i32,
    },
    DeleteServeConfig,
    DeleteNetworkPolicy,
    SetTags { node_id: u64, tags: Seq<Seq<char>> },
    PointAtProxy { external_name: Seq<char> },
    Claim,
    Done(Result<Requeue, Error>),
}

impl View for ProvisionAction {
    type V = ProvisionActionView;

    open spec fn view(&self) -> ProvisionActionView {
        match self {
            ProvisionAction::Deregister { headscale_ref } => ProvisionActionView::Deregister {
                headscale_ref: headscale_ref@,
            },
            ProvisionAction::DeleteResources => ProvisionActionView::DeleteResources,
            ProvisionAction::Release => ProvisionActionView::Release,
            ProvisionAction::GetNamespace => ProvisionActionView::GetNamespace,
            ProvisionAction::GetInstance { name } => ProvisionActionView::GetInstance {
                name: name@,
            },
            ProvisionAction::Connect { headscale_ref } => ProvisionActionView::Connect {
                headscale_ref: headscale_ref@,
            },
            ProvisionAction::ResetIfRetargeted { headscale_ref } =>
                ProvisionActionView::ResetIfRetargeted { headscale_ref: headscale_ref@ },
            ProvisionAction::RotateStaleKey { expiry_secs } =>
                ProvisionActionView::RotateStaleKey { expiry_secs: *expiry_secs },
            ProvisionAction::EnsureAuthKey(request) => ProvisionActionView::EnsureAuthKey(
                request@,
            ),
            ProvisionAction::EnsureState { headscale_ref } => ProvisionActionView::EnsureState {
                headscale_ref: headscale_ref@,
            },
            ProvisionAction::ApplyWireguard { host_network, forwards } =>
                ProvisionActionView::ApplyWireguard {
                host_network: *host_network,
                forwards: forwards@,
            },
            ProvisionAction::ApplyRbac => ProvisionActionView::ApplyRbac,
            ProvisionAction::ApplyServeConfig { serve_json } =>
                ProvisionActionView::ApplyServeConfig { serve_json: json_of(*serve_json) },
            ProvisionAction::ApplyNetworkPolicy { peers } =>
                ProvisionActionView::ApplyNetworkPolicy { peers: views(peers@) },
            ProvisionAction::ApplyStatefulSet { login_url, hostname, networking, egress } =>
                ProvisionActionView::ApplyStatefulSet {
                login_url: login_url@,
                hostname: hostname@,
                networking: *networking,
                egress: egress_of(*egress),
            },
            ProvisionAction::ApplyTunStatefulSet { login_url, hostname, dest_ip, node_port } =>
                ProvisionActionView::ApplyTunStatefulSet {
                login_url: login_url@,
                hostname: hostname@,
                dest_ip: dest_ip@,
                node_port: *node_port,
            },
            ProvisionAction::DeleteServeConfig => ProvisionActionView::DeleteServeConfig,
            ProvisionAction::DeleteNetworkPolicy => ProvisionActionView::DeleteNetworkPolicy,
            ProvisionAction::SetTags { node_id, tags } => ProvisionActionView::SetTags {
                node_id: *node_id,
                tags: texts_of(tags@),
            },
            ProvisionAction::PointAtProxy { external_name } =>
                ProvisionActionView::PointAtProxy { external_name: external_name@ },
            ProvisionAction::Claim => ProvisionActionView::Claim,
            ProvisionAction::Done(result) => ProvisionActionView::Done(*result),
        }
    }
}

/// The end with an error.
pub open spec fn failed(e: Error) -> StepView<ProvisionActionView> {
    quietly(ProvisionActionView::Done(Err(e)))
}

/// The end with a time to look again.
pub open spec fn done(requeue: Requeue) -> ProvisionActionView {
    ProvisionActionView::Done(Ok(requeue))
}

/// The end with an error.
pub fn fail(e: Error) -> (step: Step<ProvisionAction>)
    ensures
        step@ == failed(e),
{
    Step::quiet(ProvisionAction::Done(Err(e)))
}

// ---- giving a Service up ----

/// A Service is given up: the proxy is taken down, behind `notices`, then the
/// Service is released.
pub open spec fn release_step(
    known: ProvisionKnown,
    teardown: ProvisionActionView,
    notice: Option<NoticeView>,
) -> StepView<ProvisionActionView> {
    match known.torn_down {
        None => maybe_noting(notice, teardown),
        Some(Err(e)) => failed(e),
        Some(Ok(())) => match known.released {
            None => quietly(ProvisionActionView::Release),
            Some(Err(e)) => failed(e),
            Some(Ok(())) => quietly(done(Requeue::AwaitChange)),
        },
    }
}

/// How the proxy of a Service that is no longer managed is taken down: with
/// its node, where the annotation still names an instance.
pub open spec fn teardown_of(meta: ObjectMeta) -> ProvisionActionView {
    match config_text(meta, "headscale-ref"@) {
        Some(headscale_ref) => ProvisionActionView::Deregister { headscale_ref },
        None => ProvisionActionView::DeleteResources,
    }
}

/// Decides the next step of giving a Service up.
pub fn release(known: &ProvisionKnown, teardown: ProvisionAction, notice: Option<Notice>) -> (step:
    Step<ProvisionAction>)
    ensures
        step@ == release_step(*known, teardown@, notice_of(notice)),
{
    match &known.torn_down {
        None => Step::maybe_noted(notice, teardown),
        Some(Err(e)) => fail(e.clone()),
        Some(Ok(())) => match &known.released {
            None => Step::quiet(ProvisionAction::Release),
            Some(Err(e)) => fail(e.clone()),
            Some(Ok(())) => Step::quiet(ProvisionAction::Done(Ok(Requeue::AwaitChange))),
        },
    }
}

/// Takes the proxy of a Service that is no longer managed down, and releases
/// the Service.
pub fn release_unmanaged(svc: &Service, known: &ProvisionKnown) -> (step: Step<ProvisionAction>)
    ensures
        step@ == release_step(*known, teardown_of(svc.metadata), None),
{
    let teardown = match IngressAnnotations::headscale_ref(svc) {
        Some(headscale_ref) => ProvisionAction::Deregister { headscale_ref },
        None => ProvisionAction::DeleteResources,
    };
    release(known, teardown, None)
}

// ---- gates ----

/// The sentence of the warning that an instance is missing.
pub open spec fn missing_instance_words(headscale_ref: Seq<char>) -> Seq<char> {
    "HeadscaleInstance '"@ + headscale_ref + "' does not exist"@
}

/// The sentence of the warning that an instance is not ready.
pub open spec fn unready_instance_words(headscale_ref: Seq<char>) -> Seq<char> {
    "HeadscaleInstance '"@ + headscale_ref + "' is not yet ready"@
}

/// The sentence of the warning that an instance no longer covers a namespace.
pub open spec fn excluded_words(ns: Seq<char>, headscale_ref: Seq<char>) -> Seq<char> {
    "namespace '"@ + ns + "' is not in HeadscaleInstance '"@ + headscale_ref
        + "' watchedNamespaces; this Service is now orphaned"@
}

/// What stands in the way of provisioning: a namespace that is going away, an
/// instance that is missing, does not cover the namespace or is not ready.
/// `None` where nothing does. The first step publishes `notices`.
pub open spec fn gate_step(
    known: ProvisionKnown,
    ns: Seq<char>,
    headscale_ref: Seq<char>,
    notices: Seq<NoticeView>,
) -> Option<StepView<ProvisionActionView>> {
    match known.namespace {
        None => Some(StepView { notices, action: ProvisionActionView::GetNamespace }),
        Some(answer) => match namespace_deleting(answer) {
            Err(e) => Some(failed(e)),
            Ok(true) => Some(quietly(done(Requeue::AwaitChange))),
            Ok(false) => match known.instance {
                None => Some(quietly(ProvisionActionView::GetInstance { name: headscale_ref })),
                Some(Err(e)) => if e.not_found() {
                    Some(
                        noting(
                            warning("Pending"@, missing_instance_words(headscale_ref)),
                            done(Requeue::After(30)),
                        ),
                    )
                } else {
                    Some(failed(Error::Kube(e)))
                },
                Some(Ok(instance)) => if !instance.allows(ns) {
                    Some(
                        release_step(
                            known,
                            ProvisionActionView::Deregister { headscale_ref },
                            Some(
                                warning("NamespaceExcluded"@, excluded_words(ns, headscale_ref)),
                            ),
                        ),
                    )
                } else if instance.ready != Some(true) {
                    Some(
                        noting(
                            warning("Pending"@, unready_instance_words(headscale_ref)),
                            done(Requeue::After(5)),
                        ),
                    )
                } else {
                    None
                },
            },
        },
    }
}

/// What came of the gates: a step to take, or the instance to provision with.
pub enum Gate<'a> {
    Stop(Step<ProvisionAction>),
    Pass(&'a HeadscaleInstance),
}

/// Decides what stands in the way of provisioning.
pub fn gate<'a>(
    known: &'a ProvisionKnown,
    ns: &str,
    headscale_ref: &String,
    notices: Vec<Notice>,
) -> (gate: Gate<'a>)
    ensures
        match gate {
            Gate::Stop(step) => Some(step@) == gate_step(
                *known,
                ns@,
                headscale_ref@,
                views(notices@),
            ),
            Gate::Pass(instance) => gate_step(*known, ns@, headscale_ref@, views(notices@)) is None
                && known.instance == Some(Ok::<HeadscaleInstance, KubeError>(*instance)),
        },
{
    let answer = match &known.namespace {
        None => {
            let step = Step { notices, action: ProvisionAction::GetNamespace };
            proof {
                assert(step@.notices =~= views(notices@));
            }
            return Gate::Stop(step);
        },
        Some(answer) => answer,
    };
    match namespace_is_deleting(answer) {
        Err(e) => {
            return Gate::Stop(fail(e));
        },
        Ok(deleting) => if deleting {
            return Gate::Stop(
                Step::quiet(ProvisionAction::Done(Ok(Requeue::AwaitChange))),
            );
        },
    }
    let instance = match &known.instance {
        None => {
            return Gate::Stop(
                Step::quiet(ProvisionAction::GetInstance { name: headscale_ref.clone() }),
            );
        },
        Some(Err(e)) => {
            return if e.is_not_found() {
                Gate::Stop(
                    Step::warned(
                        "Pending",
                        join3("HeadscaleInstance '", headscale_ref.as_str(), "' does not exist"),
                        ProvisionAction::Done(Ok(Requeue::After(30))),
                    ),
                )
            } else {
                Gate::Stop(fail(Error::Kube(e.clone())))
            };
        },
        Some(Ok(instance)) => instance,
    };
    if !instance.namespace_allowed(ns) {
        let message = join5(
            "namespace '",
            ns,
            "' is not in HeadscaleInstance '",
            headscale_ref.as_str(),
            "' watchedNamespaces; this Service is now orphaned",
        );
        return Gate::Stop(
            release(
                known,
                ProvisionAction::Deregister { headscale_ref: headscale_ref.clone() },
                Some(Notice::Warning(Warning { reason: "NamespaceExcluded", message })),
            ),
        );
    }
    if !instance.is_ready() {
        return Gate::Stop(
            Step::warned(
                "Pending",
                join3("HeadscaleInstance '", headscale_ref.as_str(), "' is not yet ready"),
                ProvisionAction::Done(Ok(Requeue::After(5))),
            ),
        );
    }
    Gate::Pass(instance)
}

/// The URL at which a proxy logs in: that of the instance where it runs
/// outside the cluster, else that of the Service that the operator made.
pub open spec fn login_url_of(
    instance: HeadscaleInstance,
    headscale_ref: Seq<char>,
    operator_namespace: Seq<char>,
) -> Seq<char> {
    if instance.spec.external is Some {
        instance.spec.server_url@
    } else {
        "http://headscale-server-"@ + headscale_ref + "."@ + operator_namespace
            + ".svc.cluster.local:8080"@
    }
}

/// The URL at which a proxy logs in.
pub fn login_url(instance: &HeadscaleInstance, headscale_ref: &str, operator_namespace: &str) -> (url:
    String)
    ensures
        url@ == login_url_of(*instance, headscale_ref@, operator_namespace@),
{
    if instance.spec.external.is_some() {
        instance.spec.server_url.clone()
    } else {
        join5(
            "http://headscale-server-",
            headscale_ref,
            ".",
            operator_namespace,
            ".svc.cluster.local:8080",
        )
    }
}

// ---- the report ----

/// The request for the tags of the registered node, where there is a node and
/// a tag to set.
pub open spec fn tags_request(state: Secret, tags: Seq<Seq<char>>) -> Option<ProvisionActionView> {
    match registered_node(state) {
        Some(node_id) => if sorted_set(tags).len() > 0 {
            Some(ProvisionActionView::SetTags { node_id, tags: sorted_set(tags) })
        } else {
            None
        },
        None => None,
    }
}

/// Plans the request for the tags of the registered node.
pub fn plan_tags(state: &Secret, tags: Vec<String>) -> (action: Option<ProvisionAction>)
    ensures
        match action {
            Some(action) => tags_request(*state, texts_of(tags@)) == Some(action@),
            None => tags_request(*state, texts_of(tags@)) is None,
        },
{
    let unique = sorted_unique(tags);
    proof {
        assert(views(tags@) =~= texts_of(tags@));
        assert(views(unique@) =~= texts_of(unique@));
    }
    match read_node_id(state) {
        Some(node_id) => if unique.len() > 0 {
            Some(ProvisionAction::SetTags { node_id, tags: unique })
        } else {
            None
        },
        None => None,
    }
}

/// Whether setting the tags was tried and failed.
pub open spec fn tagging_failed(known: ProvisionKnown, state: Secret, tags: Seq<Seq<char>>) -> bool {
    tags_request(state, tags) is Some && known.tagged is Some && known.tagged->0 is Err
}

/// The end of provisioning: look again soon where the tags could not be set.
pub open spec fn provisioned(known: ProvisionKnown, state: Secret, tags: Seq<Seq<char>>) -> ProvisionActionView {
    done(
        if tagging_failed(known, state, tags) {
            Requeue::After(30)
        } else {
            Requeue::AwaitChange
        },
    )
}

/// The sentence of the warning that a proxy has not registered.
pub open spec fn unregistered_words(
    parent: Seq<char>,
    name: Seq<char>,
    config_secret_name: Seq<char>,
) -> Seq<char> {
    parent + name
        + "' has not registered with headscale; if this persists beyond the auth-key expiry window, delete the Secret '"@
        + config_secret_name + "' to force key rotation"@
}

/// What is said of a proxy: ready once it is registered and has an address, a
/// warning while it is not registered, nothing in between.
pub open spec fn standing_notice(
    registered: bool,
    ips: Option<Seq<Seq<char>>>,
    parent: Seq<char>,
    name: Seq<char>,
    config_secret_name: Seq<char>,
) -> Option<NoticeView> {
    if !registered {
        Some(
            warning(
                "ProxyNotRegistered"@,
                unregistered_words(parent, name, config_secret_name),
            ),
        )
    } else if ips is Some && ips->0.len() > 0 {
        Some(NoticeView::Ready)
    } else {
        None
    }
}

/// What is said of a proxy, by its state Secret.
pub open spec fn registration_notice(
    state: Secret,
    parent: Seq<char>,
    name: Seq<char>,
    config_secret_name: Seq<char>,
) -> Option<NoticeView> {
    standing_notice(
        secret_text(state, "device_id"@) is Some,
        secret_text_list(state, "device_ips"@),
        parent,
        name,
        config_secret_name,
    )
}

/// Says how far a proxy is, from whether it registered and the addresses that
/// it recorded.
pub fn report_standing(
    registered: bool,
    ips: &Option<Vec<String>>,
    parent: &str,
    name: &str,
    config_secret_name: &str,
) -> (notice: Option<Notice>)
    ensures
        notice_of(notice) == standing_notice(
            registered,
            match *ips {
                Some(ips) => Some(texts_of(ips@)),
                None => None,
            },
            parent@,
            name@,
            config_secret_name@,
        ),
{
    if !registered {
        let message = join5(
            parent,
            name,
            "' has not registered with headscale; if this persists beyond the auth-key expiry window, delete the Secret '",
            config_secret_name,
            "' to force key rotation",
        );
        return Some(Notice::Warning(Warning { reason: "ProxyNotRegistered", message }));
    }
    match ips {
        Some(ips) => if ips.len() > 0 {
            Some(Notice::Ready)
        } else {
            None
        },
        None => None,
    }
}

/// Says how far a proxy is, by its state Secret.
pub fn report_registration(state: &Secret, parent: &str, name: &str, config_secret_name: &str) -> (notice:
    Option<Notice>)
    ensures
        notice_of(notice) == registration_notice(*state, parent@, name@, config_secret_name@),
{
    let registered = read_secret_string(state, "device_id").is_some();
    let ips = read_secret_json(state, "device_ips");
    report_standing(registered, &ips, parent, name, config_secret_name)
}

// ---- progress ----

/// Whether an action asks for something that is not known yet.
pub open spec fn asks_anew(known: ProvisionKnown, action: ProvisionActionView) -> bool {
    match action {
        ProvisionActionView::Deregister { .. } => known.torn_down is None,
        ProvisionActionView::DeleteResources => known.torn_down is None,
        ProvisionActionView::Release => known.released is None,
        ProvisionActionView::GetNamespace => known.namespace is None,
        ProvisionActionView::GetInstance { .. } => known.instance is None,
        ProvisionActionView::Connect { .. } => known.connected is None,
        ProvisionActionView::ResetIfRetargeted { .. } => known.retargeted is None,
        ProvisionActionView::RotateStaleKey { .. } => known.rotated is None,
        ProvisionActionView::EnsureAuthKey(_) => known.auth_key is None,
        ProvisionActionView::EnsureState { .. } => known.state is None,
        ProvisionActionView::ApplyWireguard { .. } => known.networking is None,
        ProvisionActionView::ApplyRbac => known.rbac is None,
        ProvisionActionView::ApplyServeConfig { .. } => known.serve_config is None,
        ProvisionActionView::ApplyNetworkPolicy { .. } => known.network_policy is None,
        ProvisionActionView::ApplyStatefulSet { .. } => known.statefulset is None,
        ProvisionActionView::ApplyTunStatefulSet { .. } => known.statefulset is None,
        ProvisionActionView::DeleteServeConfig => known.serve_config_deleted is None,
        ProvisionActionView::DeleteNetworkPolicy => known.network_policy_deleted is None,
        ProvisionActionView::SetTags { .. } => known.tagged is None,
        ProvisionActionView::PointAtProxy { .. } => known.pointed is None,
        ProvisionActionView::Claim => known.claimed is None,
        ProvisionActionView::Done(_) => true,
    }
}

// ---- laws ----

/// A namespace that the instance does not cover is never provisioned: the
/// proxy is taken down, then the Service is released.
pub proof fn excluded_namespace_is_given_up(
    known: ProvisionKnown,
    ns: Seq<char>,
    headscale_ref: Seq<char>,
    notices: Seq<NoticeView>,
)
    requires
        known.instance is Some,
        known.instance->0 is Ok,
        !known.instance->0->Ok_0.allows(ns),
    ensures
        gate_step(known, ns, headscale_ref, notices) is Some,
        ({
            let action = gate_step(known, ns, headscale_ref, notices)->0.action;
            action is GetNamespace || action is Deregister || action is Release || action is Done
        }),
{
}

/// The tags that are set on a node are exactly the wanted ones, each once and
/// in order, and the node is the one that the proxy registered as.
pub proof fn wanted_tags_are_set(
    state: Secret,
    tags: Seq<Seq<char>>,
    node_id: u64,
    sent: Seq<Seq<char>>,
)
    requires
        tags_request(state, tags) == Some(ProvisionActionView::SetTags { node_id, tags: sent }),
    ensures
        registered_node(state) == Some(node_id),
        forall|tag: Seq<char>| #[trigger] sent.contains(tag) <==> tags.contains(tag),
        forall|i: int, j: int|
            0 <= i < j < sent.len() ==> precedes(#[trigger] sent[i], #[trigger] sent[j]),
{
    sorted_set_is_sorted(tags);
}

/// A proxy without tags has none set.
pub proof fn untagged_proxy_is_not_tagged(state: Secret)
    ensures
        tags_request(state, Seq::empty()) is None,
{
    sorted_set_is_sorted(Seq::empty());
    if sorted_set(Seq::empty()).len() > 0 {
        let tag = sorted_set(Seq::empty())[0];
        assert(sorted_set(Seq::empty()).contains(tag));
        assert(!Seq::<Seq<char>>::empty().contains(tag));
    }
}

/// A Service is released only after its proxy was taken down.
pub proof fn release_comes_last(
    known: ProvisionKnown,
    teardown: ProvisionActionView,
    notice: Option<NoticeView>,
)
    requires
        release_step(known, teardown, notice).action is Release,
        teardown !is Release,
    ensures
        known.torn_down is Some,
        known.torn_down->0 is Ok,
{
}

} // verus!
