//! Laws of egress: which Services are adopted, what is asked for while the
//! proxy of an ExternalName Service is provisioned, and how one is let go.

use crate::annotations::{AnnotationError, IngressAnnotations};
use crate::context::Context;
use crate::error::{Error, KubeError, Requeue};
use crate::external_service::{
    apply_step, claim_json, claim_of, cleanup_step, egress_ignored_settings, external_name_json,
    forwards_of, names_instance, other_finalizers, parent_service, reconcile_step, release_json,
    release_of, version_of, ParentLabels, ReconcileAction, ReconcileActionView,
};
use crate::forwards::tcp_serve_json;
use crate::instance::HeadscaleInstance;
use crate::json::Json;
use crate::laws::annotations::{
    annotation_says, is_ours, members_are_read_from_the_annotation, ours_is_shape_and_target,
};
use crate::laws::provision::{
    ends_with, failed_tags_are_tried_again, fails_with, gates_open_for_a_ready_instance,
    giving_up_takes_its_course, node_goes_where_an_instance_is_named,
    proxies_log_in_at_their_instance, silently, tags_go_to_the_registered_node, warning_of,
};
use crate::laws::support::{absent, went_well};
use crate::names::service_base;
use crate::objects::{texts_of, ObjectMeta, Service};
use crate::provision::{gate_step, registration_notice, ProvisionActionView, ProvisionKnown};
use crate::resources::{consumer_peers, EgressView};
use crate::step::NoticeView;
use crate::support::registered_node;
use crate::text::precedes;
use vstd::prelude::*;
use vstd::string::*;

verus! {

// ---- adoption ----

/// What is done with a Service that does not have our finalizer yet: it is
/// left alone unless it is ours, with a valid annotation; then the instance
/// that it names is read, and it is adopted where the instance watches its
/// namespace, or does not exist yet.
pub proof fn new_services_are_adopted_where_they_may_be(
    svc: Service,
    ctx: Context,
    our_finalizer: Seq<char>,
    parsed: Result<IngressAnnotations, AnnotationError>,
    instance: Option<Result<HeadscaleInstance, KubeError>>,
)
    requires
        svc.metadata.finalizers is None || (forall|i: int|
            0 <= i < svc.metadata.finalizers->0@.len() ==> (
            #[trigger] svc.metadata.finalizers->0@[i])@ != our_finalizer),
    ensures
        ({
            let action = reconcile_step(svc, ctx, our_finalizer, parsed, instance);
            let asks = is_ours(svc, ctx) && svc.metadata.namespace is Some && parsed is Ok;
            &&& !crate::dns::egress_shape(svc) ==> action == ReconcileActionView::Done(
                Ok::<Requeue, Error>(Requeue::AwaitChange),
            )
            &&& crate::dns::egress_shape(svc) && svc.metadata.namespace is None ==> action
                == ReconcileActionView::Done(Err::<Requeue, Error>(Error::MissingNamespace))
            &&& crate::dns::egress_shape(svc) && svc.metadata.namespace is Some && (!is_ours(
                svc,
                ctx,
            ) || parsed is Err) ==> action == ReconcileActionView::Done(
                Ok::<Requeue, Error>(Requeue::AwaitChange),
            )
            &&& asks && instance is None ==> action == (ReconcileActionView::GetInstance {
                name: parsed->Ok_0.headscale_ref@,
            })
            &&& action is Finalize <==> asks && instance is Some && (if instance->0 is Ok {
                instance->0->Ok_0.allows(svc.metadata.namespace->0@)
            } else {
                absent(instance->0->Err_0)
            })
            &&& asks && went_well(instance) && !instance->0->Ok_0.allows(
                svc.metadata.namespace->0@,
            ) ==> action == ReconcileActionView::Done(
                Ok::<Requeue, Error>(Requeue::AwaitChange),
            )
            &&& asks && instance is Some && instance->0 is Err && !absent(instance->0->Err_0)
                ==> action == ReconcileActionView::Done(
                Err::<Requeue, Error>(Error::Kube(instance->0->Err_0)),
            )
        }),
{
    ours_is_shape_and_target(svc, ctx);
    let finalizers = svc.metadata.finalizers_of();
    if finalizers.contains(our_finalizer) {
        let i = finalizers.index_of(our_finalizer);
        assert(finalizers[i] == our_finalizer);
        assert(svc.metadata.finalizers->0@[i]@ == our_finalizer);
    }
}

/// A Service that has our finalizer, in whatever place, is taken care of.
pub proof fn adopted_services_are_kept(
    svc: Service,
    ctx: Context,
    our_finalizer: Seq<char>,
    parsed: Result<IngressAnnotations, AnnotationError>,
    instance: Option<Result<HeadscaleInstance, KubeError>>,
    i: int,
)
    requires
        svc.metadata.finalizers is Some,
        0 <= i < svc.metadata.finalizers->0@.len(),
        svc.metadata.finalizers->0@[i]@ == our_finalizer,
    ensures
        svc.metadata.namespace is Some ==> reconcile_step(
            svc,
            ctx,
            our_finalizer,
            parsed,
            instance,
        ) is Finalize,
        svc.metadata.namespace is None ==> reconcile_step(
            svc,
            ctx,
            our_finalizer,
            parsed,
            instance,
        ) == ReconcileActionView::Done(Err::<Requeue, Error>(Error::MissingNamespace)),
{
    assert(svc.metadata.finalizers_of()[i] == our_finalizer);
}

/// What an action of reconciling a Service says is what it holds.
pub proof fn reconciling_says_what_it_holds(action: ReconcileAction)
    ensures
        match action {
            ReconcileAction::GetInstance { name } => action@ == (ReconcileActionView::GetInstance {
                name: name@,
            }),
            ReconcileAction::Finalize => action@ is Finalize,
            ReconcileAction::Done(result) => action@ == ReconcileActionView::Done(result),
        },
{
}

// ---- provisioning: up to the registration ----

/// Whether the gates of a Service are open: its namespace exists and stays,
/// and its instance is ready and watches the namespace.
pub open spec fn may_go_on(svc: Service, known: ProvisionKnown) -> bool {
    &&& went_well(known.namespace)
    &&& known.namespace->0->Ok_0.deletion_timestamp is None
    &&& went_well(known.instance)
    &&& known.instance->0->Ok_0.allows(svc.metadata.own_namespace())
    &&& known.instance->0->Ok_0.ready is Some
    &&& known.instance->0->Ok_0.ready->0
}

/// Whether nothing is missing: the Service has an external name, its
/// annotation a tailnet host, and there is something to forward.
pub open spec fn is_complete(svc: Service, annotations: IngressAnnotations) -> bool {
    &&& svc.spec is Some
    &&& svc.spec->0.external_name is Some
    &&& svc.spec->0.external_name->0@.len() > 0
    &&& annotations.tailnet_fqdn is Some
    &&& annotations.tailnet_fqdn->0@.len() > 0
    &&& forwards_of(svc).len() > 0
}

/// A Service that is not ours is given up: its node goes where its annotation
/// names an instance, and its resources alone where it does not.
pub proof fn services_of_others_are_given_up(
    svc: Service,
    ctx: Context,
    parsed: Result<IngressAnnotations, AnnotationError>,
    known: ProvisionKnown,
    headscale_ref: Seq<char>,
)
    requires
        !is_ours(svc, ctx),
    ensures
        ({
            let step = apply_step(svc, ctx, parsed, known);
            &&& known.torn_down is None && annotation_says(
                svc.metadata,
                "headscale-ref"@,
                headscale_ref,
            ) ==> silently(step, ProvisionActionView::Deregister { headscale_ref })
            &&& known.torn_down is None && (forall|other: Seq<char>|
                !annotation_says(svc.metadata, "headscale-ref"@, other)) ==> silently(
                step,
                ProvisionActionView::DeleteResources,
            )
            &&& known.torn_down is Some && known.torn_down->0 is Err ==> fails_with(
                step,
                known.torn_down->0->Err_0,
            )
            &&& went_well(known.torn_down) && known.released is None ==> silently(
                step,
                ProvisionActionView::Release,
            )
            &&& went_well(known.torn_down) && known.released is Some && known.released->0 is Err
                ==> fails_with(step, known.released->0->Err_0)
            &&& went_well(known.torn_down) && went_well(known.released) ==> ends_with(
                step,
                Requeue::AwaitChange,
            )
        }),
{
    ours_is_shape_and_target(svc, ctx);
    node_goes_where_an_instance_is_named(svc.metadata, headscale_ref);
    giving_up_takes_its_course(
        known,
        crate::provision::teardown_of(svc.metadata),
        None::<NoticeView>,
    );
}

/// A Service of ours with an invalid annotation fails with what is wrong with
/// the annotation; one whose gates are closed is held up by them, with the
/// warnings about its settings said first; one that misses something is warned
/// about and left until it changes. No other is provisioned.
pub proof fn unfit_services_are_not_provisioned(
    svc: Service,
    ctx: Context,
    parsed: Result<IngressAnnotations, AnnotationError>,
    known: ProvisionKnown,
)
    requires
        is_ours(svc, ctx),
    ensures
        ({
            let step = apply_step(svc, ctx, parsed, known);
            let annotations = parsed->Ok_0;
            &&& parsed is Err ==> fails_with(step, Error::Annotation(parsed->Err_0))
            &&& parsed is Ok && !may_go_on(svc, known) ==> Some(step) == gate_step(
                known,
                svc.metadata.own_namespace(),
                annotations.headscale_ref@,
                egress_ignored_settings(annotations),
            )
            &&& parsed is Ok && may_go_on(svc, known) && (svc.spec->0.external_name is None
                || svc.spec->0.external_name->0@.len() == 0) ==> warning_of(
                step,
                "InvalidConfig"@,
                "ExternalName Service has no spec.externalName"@,
                ProvisionActionView::Done(Ok::<Requeue, Error>(Requeue::AwaitChange)),
            )
            &&& parsed is Ok && may_go_on(svc, known) && svc.spec->0.external_name is Some
                && svc.spec->0.external_name->0@.len() > 0 && (annotations.tailnet_fqdn is None
                || annotations.tailnet_fqdn->0@.len() == 0) ==> warning_of(
                step,
                "InvalidConfig"@,
                "ExternalName Service has no 'tailnet-fqdn'"@,
                ProvisionActionView::Done(Ok::<Requeue, Error>(Requeue::AwaitChange)),
            )
            &&& parsed is Ok && may_go_on(svc, known) && svc.spec->0.external_name is Some
                && svc.spec->0.external_name->0@.len() > 0 && annotations.tailnet_fqdn is Some
                && annotations.tailnet_fqdn->0@.len() > 0 && forwards_of(svc).len() == 0
                ==> warning_of(
                step,
                "InvalidConfig"@,
                "ExternalName Service declares no TCP ports; add spec.ports to expose it"@,
                ProvisionActionView::Done(Ok::<Requeue, Error>(Requeue::AwaitChange)),
            )
        }),
{
    ours_is_shape_and_target(svc, ctx);
    if parsed is Ok {
        gates_open_for_a_ready_instance(
            known,
            svc.metadata.own_namespace(),
            parsed->Ok_0.headscale_ref@,
            egress_ignored_settings(parsed->Ok_0),
        );
    }
}

/// There is one warning for the access grants and one for the host network,
/// where the annotation has them, in this order.
pub proof fn ignored_egress_settings_are_told(annotations: IngressAnnotations)
    ensures
        ({
            let said = egress_ignored_settings(annotations);
            let access = NoticeView::Warning {
                reason: "IgnoredConfig"@,
                message: "'access' does not apply to ExternalName Services; ignored"@,
            };
            let network = NoticeView::Warning {
                reason: "IgnoredConfig"@,
                message: "'host-network' does not apply to ExternalName Services; ignored"@,
            };
            &&& annotations.access@.len() == 0 && !annotations.host_network ==> said.len() == 0
            &&& annotations.access@.len() > 0 && !annotations.host_network ==> said == seq![access]
            &&& annotations.access@.len() == 0 && annotations.host_network ==> said == seq![network]
            &&& annotations.access@.len() > 0 && annotations.host_network ==> said
                == seq![access, network]
        }),
{
}

/// What is asked for until the proxy can register, by what is known: headscale
/// is connected to, the proxy's Service gets the forwards, on the pod network,
/// a proxy of another instance is moved, a key past its time is dropped, and a
/// key and the state Secret are made sure of. What fails ends the run, and a
/// user that is not there yet is waited for.
pub proof fn proxy_is_registered_in_order(
    svc: Service,
    ctx: Context,
    annotations: IngressAnnotations,
    known: ProvisionKnown,
)
    requires
        is_ours(svc, ctx),
        may_go_on(svc, known),
        is_complete(svc, annotations),
    ensures
        ({
            let step = apply_step(svc, ctx, Ok(annotations), known);
            let headscale_ref = annotations.headscale_ref@;
            let reached = went_well(known.connected);
            let addressed = reached && went_well(known.networking);
            let moved = addressed && went_well(known.retargeted);
            let fresh = moved && went_well(known.rotated);
            let keyed = fresh && went_well(known.auth_key) && known.auth_key->0->Ok_0 is Ready;
            &&& known.connected is None ==> silently(
                step,
                ProvisionActionView::Connect { headscale_ref },
            )
            &&& known.connected is Some && known.connected->0 is Err ==> fails_with(
                step,
                Error::Kube(known.connected->0->Err_0),
            )
            &&& reached && known.networking is None ==> silently(
                step,
                ProvisionActionView::ApplyWireguard {
                    host_network: false,
                    forwards: forwards_of(svc),
                },
            )
            &&& reached && known.networking is Some && known.networking->0 is Err ==> fails_with(
                step,
                known.networking->0->Err_0,
            )
            &&& addressed && known.retargeted is None ==> silently(
                step,
                ProvisionActionView::ResetIfRetargeted { headscale_ref },
            )
            &&& addressed && known.retargeted is Some && known.retargeted->0 is Err ==> fails_with(
                step,
                known.retargeted->0->Err_0,
            )
            &&& moved && known.rotated is None ==> silently(
                step,
                ProvisionActionView::RotateStaleKey {
                    expiry_secs: annotations.auth_key_expiry_secs,
                },
            )
            &&& moved && known.rotated is Some && known.rotated->0 is Err ==> fails_with(
                step,
                known.rotated->0->Err_0,
            )
            &&& fresh && known.auth_key is None ==> step.action is EnsureAuthKey
                && step.notices.len() == 0
            &&& fresh && known.auth_key is Some && known.auth_key->0 is Err ==> fails_with(
                step,
                known.auth_key->0->Err_0,
            )
            &&& fresh && went_well(known.auth_key) && known.auth_key->0->Ok_0 is WaitingForUser
                ==> ends_with(step, Requeue::After(30))
            &&& keyed && known.state is None ==> silently(
                step,
                ProvisionActionView::EnsureState { headscale_ref },
            )
            &&& keyed && known.state is Some && known.state->0 is Err ==> fails_with(
                step,
                known.state->0->Err_0,
            )
        }),
{
    ours_is_shape_and_target(svc, ctx);
    gates_open_for_a_ready_instance(
        known,
        svc.metadata.own_namespace(),
        annotations.headscale_ref@,
        egress_ignored_settings(annotations),
    );
}

/// Whenever a key is asked for, it is one for the user of the annotation, with
/// the tags, the expiry and the reusability of the annotation, and one for a
/// node that stays.
pub proof fn egress_key_is_that_of_the_annotation(
    svc: Service,
    ctx: Context,
    annotations: IngressAnnotations,
    known: ProvisionKnown,
)
    requires
        apply_step(svc, ctx, Ok(annotations), known).action is EnsureAuthKey,
    ensures
        ({
            let request = apply_step(svc, ctx, Ok(annotations), known).action->EnsureAuthKey_0;
            &&& request.user is Some <==> annotations.user is Some
            &&& annotations.user is Some ==> request.user->0 == annotations.user->0@
            &&& request.managed_key_tags.len() == annotations.managed_key_tags@.len()
            &&& forall|i: int|
                0 <= i < annotations.managed_key_tags@.len()
                    ==> #[trigger] request.managed_key_tags[i] == annotations.managed_key_tags@[i]@
            &&& request.auto_tag is None
            &&& request.expiry_secs == annotations.auth_key_expiry_secs
            &&& request.reusable == annotations.auth_key_reusable
            &&& !request.ephemeral
        }),
{
}

// ---- provisioning: the proxy ----

/// Whether the proxy of a Service could register, as far as the cluster goes.
pub open spec fn may_run(svc: Service, annotations: IngressAnnotations, known: ProvisionKnown) -> bool {
    &&& may_go_on(svc, known)
    &&& is_complete(svc, annotations)
    &&& went_well(known.connected)
    &&& went_well(known.networking)
    &&& went_well(known.retargeted)
    &&& went_well(known.rotated)
    &&& went_well(known.auth_key)
    &&& known.auth_key->0->Ok_0 is Ready
    &&& went_well(known.state)
}

/// What is asked for from the registration on, by what is known: the serve
/// config, the rights, a policy where there are consumers and none where there
/// are not, the StatefulSet, and the Service's way to the proxy.
pub proof fn proxy_is_deployed_in_order(
    svc: Service,
    ctx: Context,
    annotations: IngressAnnotations,
    known: ProvisionKnown,
)
    requires
        is_ours(svc, ctx),
        may_run(svc, annotations, known),
    ensures
        ({
            let step = apply_step(svc, ctx, Ok(annotations), known);
            let fqdn = annotations.tailnet_fqdn->0@;
            let served = went_well(known.serve_config);
            let allowed = served && went_well(known.rbac);
            let few = annotations.consumers@.len() > 0;
            let guarded = allowed && (if few {
                went_well(known.network_policy)
            } else {
                went_well(known.network_policy_deleted)
            });
            let deployed = guarded && went_well(known.statefulset);
            &&& known.serve_config is None ==> silently(
                step,
                ProvisionActionView::ApplyServeConfig {
                    serve_json: tcp_serve_json(fqdn, forwards_of(svc)),
                },
            )
            &&& known.serve_config is Some && known.serve_config->0 is Err ==> fails_with(
                step,
                known.serve_config->0->Err_0,
            )
            &&& served && known.rbac is None ==> silently(step, ProvisionActionView::ApplyRbac)
            &&& served && known.rbac is Some && known.rbac->0 is Err ==> fails_with(
                step,
                known.rbac->0->Err_0,
            )
            &&& allowed && few && known.network_policy is None ==> silently(
                step,
                ProvisionActionView::ApplyNetworkPolicy {
                    peers: consumer_peers(annotations.consumers@),
                },
            )
            &&& allowed && few && known.network_policy is Some && known.network_policy->0 is Err
                ==> fails_with(step, known.network_policy->0->Err_0)
            &&& allowed && !few && known.network_policy_deleted is None ==> silently(
                step,
                ProvisionActionView::DeleteNetworkPolicy,
            )
            &&& allowed && !few && known.network_policy_deleted is Some
                && known.network_policy_deleted->0 is Err ==> fails_with(
                step,
                known.network_policy_deleted->0->Err_0,
            )
            &&& guarded && known.statefulset is None ==> step.action is ApplyStatefulSet
                && step.notices.len() == 0
            &&& guarded && known.statefulset is Some && known.statefulset->0 is Err ==> fails_with(
                step,
                known.statefulset->0->Err_0,
            )
            &&& deployed && known.pointed is None ==> silently(
                step,
                ProvisionActionView::PointAtProxy {
                    external_name: "proxy-wg-"@ + service_base(
                        svc.metadata.own_namespace(),
                        svc.metadata.any_name(),
                    ) + "."@ + ctx.operator_namespace@ + ".svc.cluster.local"@,
                },
            )
            &&& deployed && known.pointed is Some && known.pointed->0 is Err ==> fails_with(
                step,
                Error::Kube(known.pointed->0->Err_0),
            )
        }),
{
    ours_is_shape_and_target(svc, ctx);
    gates_open_for_a_ready_instance(
        known,
        svc.metadata.own_namespace(),
        annotations.headscale_ref@,
        egress_ignored_settings(annotations),
    );
}

/// Whenever the StatefulSet is asked for, its proxy joins under the hostname
/// of the annotation and logs in at the instance that the annotation names: at
/// the URL of one outside the cluster, and at the Service of one that the
/// operator runs. It has the network that its Service got, and forwards the
/// declared ports to the tailnet host of the annotation.
pub proof fn egress_proxy_joins_as_the_annotation_says(
    svc: Service,
    ctx: Context,
    annotations: IngressAnnotations,
    known: ProvisionKnown,
)
    requires
        apply_step(svc, ctx, Ok(annotations), known).action is ApplyStatefulSet,
    ensures
        known.instance is Some && known.instance->0 is Ok,
        known.networking is Some && known.networking->0 is Ok,
        ({
            let action = apply_step(svc, ctx, Ok(annotations), known).action;
            let instance = known.instance->0->Ok_0;
            &&& action->ApplyStatefulSet_hostname == annotations.hostname@
            &&& instance.spec.external is Some ==> action->ApplyStatefulSet_login_url
                == instance.spec.server_url@
            &&& instance.spec.external is None ==> action->ApplyStatefulSet_login_url
                == "http://headscale-server-"@ + annotations.headscale_ref@ + "."@
                + ctx.operator_namespace@ + ".svc.cluster.local:8080"@
            &&& action->networking == known.networking->0->Ok_0
            &&& action->egress == Some(
                (EgressView {
                    image: ctx.socat_image@,
                    host: annotations.tailnet_fqdn->0@,
                    forwards: forwards_of(svc),
                }),
            )
            &&& annotations.tailnet_fqdn is Some
        }),
{
    proxies_log_in_at_their_instance(
        known.instance->0->Ok_0,
        annotations.headscale_ref@,
        ctx.operator_namespace@,
    );
}

/// Two annotations that differ in their hostname alone ask for the same, up to
/// the StatefulSet, where each asks for its own hostname.
pub proof fn hostname_matters_to_the_pod_alone(
    svc: Service,
    ctx: Context,
    annotations: IngressAnnotations,
    hostname: String,
    known: ProvisionKnown,
)
    ensures
        ({
            let one = apply_step(svc, ctx, Ok(annotations), known).action;
            let other = apply_step(
                svc,
                ctx,
                Ok(IngressAnnotations { hostname, ..annotations }),
                known,
            ).action;
            &&& one is ApplyStatefulSet <==> other is ApplyStatefulSet
            &&& one is ApplyStatefulSet ==> other->ApplyStatefulSet_hostname == hostname@
                && other->ApplyStatefulSet_login_url == one->ApplyStatefulSet_login_url
            &&& !(one is ApplyStatefulSet) ==> one == other
        }),
{
}

/// What is asked for at the end, by what is known: the tags of the annotation
/// for the node that registered, then the claim, with word on how far the
/// proxy is. Tags that could not be set are tried again later.
pub proof fn egress_proxy_is_finished_in_order(
    svc: Service,
    ctx: Context,
    annotations: IngressAnnotations,
    known: ProvisionKnown,
)
    requires
        is_ours(svc, ctx),
        may_run(svc, annotations, known),
        went_well(known.serve_config),
        went_well(known.rbac),
        annotations.consumers@.len() > 0 ==> went_well(known.network_policy),
        annotations.consumers@.len() == 0 ==> went_well(known.network_policy_deleted),
        went_well(known.statefulset),
        went_well(known.pointed),
    ensures
        ({
            let step = apply_step(svc, ctx, Ok(annotations), known);
            let state = known.state->0->Ok_0;
            let wanted = annotations.managed_key_tags@.len() > 0 && registered_node(state) is Some;
            let tagged = wanted ==> known.tagged is Some;
            &&& wanted && known.tagged is None ==> {
                &&& step.action is SetTags && step.notices.len() == 0
                &&& Some(step.action->node_id) == registered_node(state)
                &&& forall|tag: Seq<char>| #[trigger]
                    step.action->tags.contains(tag) <==> exists|i: int|
                        0 <= i < annotations.managed_key_tags@.len()
                            && #[trigger] annotations.managed_key_tags@[i]@ == tag
                &&& forall|i: int, j: int|
                    0 <= i < j < step.action->tags.len() ==> precedes(
                        #[trigger] step.action->tags[i],
                        #[trigger] step.action->tags[j],
                    )
            }
            &&& tagged && known.claimed is None ==> {
                let notice = registration_notice(
                    state,
                    "proxy for Service '"@,
                    svc.metadata.any_name(),
                    "proxy-authkey-"@ + service_base(
                        svc.metadata.own_namespace(),
                        svc.metadata.any_name(),
                    ),
                );
                &&& step.action is Claim
                &&& notice is Some ==> step.notices.len() == 1 && step.notices[0] == notice->0
                &&& notice is None ==> step.notices.len() == 0
            }
            &&& tagged && known.claimed is Some && known.claimed->0 is Err ==> fails_with(
                step,
                Error::Kube(known.claimed->0->Err_0),
            )
            &&& tagged && went_well(known.claimed) ==> ends_with(
                step,
                if wanted && known.tagged->0 is Err {
                    Requeue::After(30)
                } else {
                    Requeue::AwaitChange
                },
            )
        }),
{
    ours_is_shape_and_target(svc, ctx);
    gates_open_for_a_ready_instance(
        known,
        svc.metadata.own_namespace(),
        annotations.headscale_ref@,
        egress_ignored_settings(annotations),
    );
    let state = known.state->0->Ok_0;
    let tags = texts_of(annotations.managed_key_tags@);
    tags_go_to_the_registered_node(state, tags);
    failed_tags_are_tried_again(known, state, tags);
    let step = apply_step(svc, ctx, Ok(annotations), known);
    if annotations.managed_key_tags@.len() > 0 && registered_node(state) is Some
        && known.tagged is None {
        assert forall|tag: Seq<char>| #[trigger]
            step.action->tags.contains(tag) <==> exists|i: int|
                0 <= i < annotations.managed_key_tags@.len()
                    && #[trigger] annotations.managed_key_tags@[i]@ == tag by {
            if tags.contains(tag) {
                let i = tags.index_of(tag);
                assert(annotations.managed_key_tags@[i]@ == tag);
            }
            if exists|i: int|
                0 <= i < annotations.managed_key_tags@.len()
                    && #[trigger] annotations.managed_key_tags@[i]@ == tag {
                let i = choose|i: int|
                    0 <= i < annotations.managed_key_tags@.len()
                        && #[trigger] annotations.managed_key_tags@[i]@ == tag;
                assert(tags[i] == tag);
            }
        }
    }
}

// ---- cleaning up ----

/// The proxy of a deleted Service is taken down with its node, at the instance
/// that the annotation names, if it still names one.
pub proof fn deleted_services_lose_their_proxy(
    svc: Service,
    known: ProvisionKnown,
    headscale_ref: Seq<char>,
)
    ensures
        known.torn_down is None && annotation_says(svc.metadata, "headscale-ref"@, headscale_ref)
            ==> cleanup_step(svc, known) == (ProvisionActionView::Deregister { headscale_ref }),
        known.torn_down is None && (forall|other: Seq<char>|
            !annotation_says(svc.metadata, "headscale-ref"@, other)) ==> cleanup_step(svc, known)
            == (ProvisionActionView::Deregister { headscale_ref: ""@ }),
        known.torn_down is Some && known.torn_down->0 is Err ==> cleanup_step(svc, known)
            == ProvisionActionView::Done(Err::<Requeue, Error>(known.torn_down->0->Err_0)),
        went_well(known.torn_down) ==> cleanup_step(svc, known) == ProvisionActionView::Done(
            Ok::<Requeue, Error>(Requeue::AwaitChange),
        ),
{
    members_are_read_from_the_annotation(svc.metadata, "headscale-ref"@, headscale_ref);
    match crate::annotations::config_text(svc.metadata, "headscale-ref"@) {
        Some(named) => {
            members_are_read_from_the_annotation(svc.metadata, "headscale-ref"@, named);
        },
        None => {},
    }
}

// ---- patches ----

/// The patches say what they change and nothing else: a claim marks the
/// Service with the deployment, a release takes that mark and our finalizer
/// off the version that was read, and pointing sets the external name.
pub proof fn patches_say_what_they_change(
    name: Seq<char>,
    ns: Seq<char>,
    claimed_by: Seq<char>,
    text: Seq<char>,
    finalizers: Seq<Seq<char>>,
)
    ensures
        claim_json(name, ns, claimed_by, text) == Json::Object(
            seq![
                ("apiVersion"@, Json::Text("v1"@)),
                ("kind"@, Json::Text("Service"@)),
                (
                    "metadata"@,
                    Json::Object(
                        seq![
                            ("name"@, Json::Text(name)),
                            ("namespace"@, Json::Text(ns)),
                            ("annotations"@, Json::Object(seq![(claimed_by, Json::Text(text))])),
                        ],
                    ),
                ),
            ],
        ),
        external_name_json(text) == Json::Object(
            seq![("spec"@, Json::Object(seq![("externalName"@, Json::Text(text))]))],
        ),
        release_json(text, finalizers, claimed_by) == Json::Object(
            seq![
                (
                    "metadata"@,
                    Json::Object(
                        seq![
                            ("resourceVersion"@, Json::Text(text)),
                            (
                                "finalizers"@,
                                Json::Array(
                                    Seq::new(finalizers.len(), |i: int| Json::Text(finalizers[i])),
                                ),
                            ),
                            ("annotations"@, Json::Object(seq![(claimed_by, Json::Null)])),
                        ],
                    ),
                ),
            ],
        ),
{
    assert(finalizers.map_values(|f: Seq<char>| Json::Text(f)) =~= Seq::new(
        finalizers.len(),
        |i: int| Json::Text(finalizers[i]),
    ));
}

/// The finalizers that stay, in order: one more on the object stays at the end
/// exactly where it is not ours. None stay where there are none.
pub proof fn each_finalizer_but_ours_stays(
    meta: ObjectMeta,
    more: ObjectMeta,
    finalizer: String,
    our_finalizer: Seq<char>,
)
    requires
        meta.finalizers is Some,
        more.finalizers is Some,
        more.finalizers->0@ == meta.finalizers->0@.push(finalizer),
    ensures
        finalizer@ != our_finalizer ==> other_finalizers(more, our_finalizer)
            == other_finalizers(meta, our_finalizer).push(finalizer@),
        finalizer@ == our_finalizer ==> other_finalizers(more, our_finalizer)
            == other_finalizers(meta, our_finalizer),
{
    reveal(Seq::filter);
    assert(more.finalizers_of().drop_last() =~= meta.finalizers_of());
    assert(more.finalizers_of().last() == finalizer@);
}

/// Where an object has no finalizers none stay, and its version is as it says.
pub proof fn bare_objects_have_nothing_to_keep(meta: ObjectMeta, our_finalizer: Seq<char>)
    ensures
        meta.finalizers is None || meta.finalizers->0@.len() == 0 ==> other_finalizers(
            meta,
            our_finalizer,
        ).len() == 0,
        meta.resource_version is Some ==> version_of(meta) == meta.resource_version->0@,
        meta.resource_version is None ==> version_of(meta).len() == 0,
{
    reveal(Seq::filter);
    reveal_strlit("");
}

// ---- triggers ----

/// A Secret belongs to the Service that its labels name, in the namespace that
/// they name, exactly where they say that it is one of a Service.
pub proof fn secrets_belong_to_their_service(
    meta: ObjectMeta,
    labels: ParentLabels,
    name: Seq<char>,
    ns: Seq<char>,
)
    ensures
        parent_service(meta, labels) == Some((name, ns)) <==> {
            &&& meta.labels is Some
            &&& meta.labels->0@.contains_key(labels.kind@)
            &&& meta.labels->0@[labels.kind@]@ == labels.service_kind@
            &&& meta.labels->0@.contains_key(labels.name@)
            &&& meta.labels->0@[labels.name@]@ == name
            &&& meta.labels->0@.contains_key(labels.namespace@)
            &&& meta.labels->0@[labels.namespace@]@ == ns
        },
{
}

/// An object has to be looked at again when an instance changes exactly where
/// its annotation names that instance.
pub proof fn objects_follow_the_instance_they_name(meta: ObjectMeta, instance_name: Seq<char>)
    ensures
        names_instance(meta, instance_name) <==> annotation_says(
            meta,
            "headscale-ref"@,
            instance_name,
        ),
{
    members_are_read_from_the_annotation(meta, "headscale-ref"@, instance_name);
}

/// A claim marks the Service that it is of with this deployment's namespace; a
/// release is bound to the version that was read, and keeps the finalizers
/// that are not ours.
pub proof fn patches_are_of_their_service(
    svc: Service,
    ctx: Context,
    claimed_by: Seq<char>,
    our_finalizer: Seq<char>,
)
    ensures
        claim_of(svc, ctx, claimed_by) == claim_json(
            svc.metadata.any_name(),
            svc.metadata.own_namespace(),
            claimed_by,
            ctx.operator_namespace@,
        ),
        svc.metadata.resource_version is Some ==> release_of(svc, our_finalizer, claimed_by)
            == release_json(
            svc.metadata.resource_version->0@,
            other_finalizers(svc.metadata, our_finalizer),
            claimed_by,
        ),
{
}

} // verus!
