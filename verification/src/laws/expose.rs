//! Laws of exposing a Service on the tailnet: what is asked for, in which
//! order, and what each request holds.

use crate::annotations::{AnnotationError, IngressAnnotations};
use crate::context::Context;
use crate::error::{Error, Requeue};
use crate::expose::{expose_step, exposed_ports, ignored_settings};
use crate::forwards::{same_ports, tcp_serve_json};
use crate::laws::egress::may_go_on;
use crate::laws::provision::{
    ends_with, failed_tags_are_tried_again, fails_with, gates_open_for_a_ready_instance,
    proxies_log_in_at_their_instance, silently, tags_go_to_the_registered_node, warning_of,
};
use crate::laws::support::went_well;
use crate::names::service_base;
use crate::objects::{texts_of, Service};
use crate::provision::{gate_step, registration_notice, ProvisionActionView, ProvisionKnown};
use crate::step::NoticeView;
use crate::support::registered_node;
use crate::text::precedes;
use vstd::prelude::*;
use vstd::string::*;

verus! {

// ---- configuration ----

/// Whether a Service has a ClusterIP to send traffic to.
pub open spec fn has_cluster_ip(svc: Service) -> bool {
    svc.spec is Some && svc.spec->0.cluster_ip is Some && svc.spec->0.cluster_ip->0@.len() > 0
        && svc.spec->0.cluster_ip->0@ != "None"@
}

/// Whether a Service can be exposed as its annotation says: it has no egress
/// settings, and has a port for a userspace proxy, or a ClusterIP for one in
/// the kernel.
pub open spec fn is_exposable(svc: Service, annotations: IngressAnnotations) -> bool {
    &&& annotations.tailnet_fqdn is None
    &&& annotations.consumers@.len() == 0
    &&& annotations.mode is Tsnet ==> exposed_ports(svc).len() > 0
    &&& annotations.mode is Tun ==> has_cluster_ip(svc)
}

/// There is one warning for the access grants and one for the host network of
/// a proxy in the kernel, where the annotation has them, in this order.
pub proof fn ignored_expose_settings_are_told(annotations: IngressAnnotations)
    ensures
        ({
            let said = ignored_settings(annotations);
            let network = annotations.host_network && annotations.mode is Tun;
            let about_access = NoticeView::Warning {
                reason: "IgnoredConfig"@,
                message: "'access' is not supported on exposed Services; grant access to this proxy's tag in the tailnet ACL instead"@,
            };
            let about_network = NoticeView::Warning {
                reason: "IgnoredConfig"@,
                message: "'host-network' does not apply to tun-mode proxies; ignored"@,
            };
            &&& annotations.access@.len() == 0 && !network ==> said.len() == 0
            &&& annotations.access@.len() > 0 && !network ==> said == seq![about_access]
            &&& annotations.access@.len() == 0 && network ==> said == seq![about_network]
            &&& annotations.access@.len() > 0 && network ==> said
                == seq![about_access, about_network]
        }),
{
    let said = ignored_settings(annotations);
    let network = annotations.host_network && annotations.mode is Tun;
    if annotations.access@.len() > 0 && network {
        assert(said.len() == 2);
    }
}

/// A Service with an invalid annotation fails with what is wrong with it; one
/// with egress settings, without a port to forward or without an address to
/// forward to is warned about and left until it changes; any other is held up
/// only by its gates.
pub proof fn unfit_services_are_not_exposed(
    svc: Service,
    ctx: Context,
    parsed: Result<IngressAnnotations, AnnotationError>,
    known: ProvisionKnown,
)
    ensures
        ({
            let step = expose_step(svc, ctx, parsed, known);
            let annotations = parsed->Ok_0;
            let egresses = annotations.tailnet_fqdn is Some || annotations.consumers@.len() > 0;
            let wait = ProvisionActionView::Done(Ok::<Requeue, Error>(Requeue::AwaitChange));
            &&& parsed is Err ==> fails_with(step, Error::Annotation(parsed->Err_0))
            &&& parsed is Ok && egresses ==> warning_of(
                step,
                "InvalidConfig"@,
                "'tailnet-fqdn' and 'consumers' do not apply to exposed Services; they configure egress ExternalName Services"@,
                wait,
            )
            &&& parsed is Ok && !egresses && annotations.mode is Tsnet && exposed_ports(svc).len()
                == 0 ==> step.action == wait && step.notices == ignored_settings(annotations).push(
                NoticeView::Warning {
                    reason: "InvalidConfig"@,
                    message: "exposed Service declares no TCP ports; add spec.ports so the tsnet proxy knows what to forward"@,
                },
            )
            &&& parsed is Ok && !egresses && annotations.mode is Tun && !has_cluster_ip(svc)
                ==> step.action == wait && step.notices == ignored_settings(annotations).push(
                NoticeView::Warning {
                    reason: "InvalidConfig"@,
                    message: "tun mode requires a ClusterIP to DNAT to; headless Services can only be exposed in tsnet mode"@,
                },
            )
            &&& parsed is Ok && is_exposable(svc, annotations) && !may_go_on(svc, known) ==> Some(
                step,
            ) == gate_step(
                known,
                svc.metadata.own_namespace(),
                annotations.headscale_ref@,
                ignored_settings(annotations),
            )
        }),
{
    if parsed is Ok {
        gates_open_for_a_ready_instance(
            known,
            svc.metadata.own_namespace(),
            parsed->Ok_0.headscale_ref@,
            ignored_settings(parsed->Ok_0),
        );
    }
}

// ---- the registration ----

/// What is asked for until the proxy can register, by what is known: headscale
/// is connected to, a proxy of another instance is moved, a key past its time
/// is dropped, and a key and the state Secret are made sure of. What fails ends
/// the run, and a user that is not there yet is waited for.
pub proof fn exposing_proxy_is_registered_in_order(
    svc: Service,
    ctx: Context,
    annotations: IngressAnnotations,
    known: ProvisionKnown,
)
    requires
        may_go_on(svc, known),
        is_exposable(svc, annotations),
    ensures
        ({
            let step = expose_step(svc, ctx, Ok(annotations), known);
            let headscale_ref = annotations.headscale_ref@;
            let reached = went_well(known.connected);
            let moved = reached && went_well(known.retargeted);
            let fresh = moved && went_well(known.rotated);
            let keyed = fresh && went_well(known.auth_key) && known.auth_key->0->Ok_0 is Ready;
            &&& known.connected is None ==> silently(
                step,
                ProvisionActionView::Connect { headscale_ref },
            )
            &&& known.connected is Some && known.connected->0 is Err ==> fails_with(
                step,
                Error::Kube(known.connected->0->Err_0),
            )
            &&& reached && known.retargeted is None ==> silently(
                step,
                ProvisionActionView::ResetIfRetargeted { headscale_ref },
            )
            &&& reached && known.retargeted is Some && known.retargeted->0 is Err ==> fails_with(
                step,
                known.retargeted->0->Err_0,
            )
            &&& moved && known.rotated is None ==> silently(
                step,
                ProvisionActionView::RotateStaleKey {
                    expiry_secs: annotations.auth_key_expiry_secs,
                },
            )
            &&& moved && known.rotated is Some && known.rotated->0 is Err ==> fails_with(
                step,
                known.rotated->0->Err_0,
            )
            &&& fresh && known.auth_key is None ==> step.action is EnsureAuthKey
                && step.notices.len() == 0
            &&& fresh && known.auth_key is Some && known.auth_key->0 is Err ==> fails_with(
                step,
                known.auth_key->0->Err_0,
            )
            &&& fresh && went_well(known.auth_key) && known.auth_key->0->Ok_0 is WaitingForUser
                ==> ends_with(step, Requeue::After(30))
            &&& keyed && known.state is None ==> silently(
                step,
                ProvisionActionView::EnsureState { headscale_ref },
            )
            &&& keyed && known.state is Some && known.state->0 is Err ==> fails_with(
                step,
                known.state->0->Err_0,
            )
        }),
{
    gates_open_for_a_ready_instance(
        known,
        svc.metadata.own_namespace(),
        annotations.headscale_ref@,
        ignored_settings(annotations),
    );
}

/// Whenever a key is asked for, it is one for the user of the annotation, with
/// the tags, the expiry and the reusability of the annotation; it is ephemeral
/// exactly for a proxy in the kernel.
pub proof fn expose_key_is_that_of_the_annotation(
    svc: Service,
    ctx: Context,
    annotations: IngressAnnotations,
    known: ProvisionKnown,
)
    requires
        expose_step(svc, ctx, Ok(annotations), known).action is EnsureAuthKey,
    ensures
        ({
            let request = expose_step(svc, ctx, Ok(annotations), known).action->EnsureAuthKey_0;
            &&& request.user is Some <==> annotations.user is Some
            &&& annotations.user is Some ==> request.user->0 == annotations.user->0@
            &&& request.managed_key_tags.len() == annotations.managed_key_tags@.len()
            &&& forall|i: int|
                0 <= i < annotations.managed_key_tags@.len()
                    ==> #[trigger] request.managed_key_tags[i] == annotations.managed_key_tags@[i]@
            &&& request.auto_tag is None
            &&& request.expiry_secs == annotations.auth_key_expiry_secs
            &&& request.reusable == annotations.auth_key_reusable
            &&& request.ephemeral <==> annotations.mode is Tun
        }),
{
}

// ---- the proxy ----

/// Whether the proxy of an exposed Service could register, as far as the
/// cluster goes.
pub open spec fn may_be_exposed(
    svc: Service,
    annotations: IngressAnnotations,
    known: ProvisionKnown,
) -> bool {
    &&& may_go_on(svc, known)
    &&& is_exposable(svc, annotations)
    &&& went_well(known.connected)
    &&& went_well(known.retargeted)
    &&& went_well(known.rotated)
    &&& went_well(known.auth_key)
    &&& known.auth_key->0->Ok_0 is Ready
    &&& went_well(known.state)
}

/// What is asked for from the registration on, by what is known: the proxy's
/// Service without forwards, on the host network only for a userspace proxy
/// that asked for it, the rights, and the proxy itself. A userspace proxy has
/// its serve config first, with each port leading to the same port of the
/// Service; one in the kernel loses its serve config after.
pub proof fn exposing_proxy_is_deployed_in_order(
    svc: Service,
    ctx: Context,
    annotations: IngressAnnotations,
    known: ProvisionKnown,
)
    requires
        may_be_exposed(svc, annotations, known),
    ensures
        ({
            let step = expose_step(svc, ctx, Ok(annotations), known);
            let addressed = went_well(known.networking);
            let allowed = addressed && went_well(known.rbac);
            let served = allowed && annotations.mode is Tsnet && went_well(known.serve_config);
            let ready = served || (allowed && annotations.mode is Tun);
            let deployed = ready && went_well(known.statefulset);
            &&& known.networking is None ==> step.action is ApplyWireguard && step.notices.len()
                == 0 && step.action->forwards.len() == 0 && (step.action->host_network <==> (
            annotations.host_network && annotations.mode is Tsnet))
            &&& known.networking is Some && known.networking->0 is Err ==> fails_with(
                step,
                known.networking->0->Err_0,
            )
            &&& addressed && known.rbac is None ==> silently(step, ProvisionActionView::ApplyRbac)
            &&& addressed && known.rbac is Some && known.rbac->0 is Err ==> fails_with(
                step,
                known.rbac->0->Err_0,
            )
            &&& allowed && annotations.mode is Tsnet && known.serve_config is None ==> silently(
                step,
                ProvisionActionView::ApplyServeConfig {
                    serve_json: tcp_serve_json(
                        svc.metadata.any_name() + "."@ + svc.metadata.own_namespace()
                            + ".svc.cluster.local"@,
                        same_ports(exposed_ports(svc)),
                    ),
                },
            )
            &&& allowed && annotations.mode is Tsnet && known.serve_config is Some
                && known.serve_config->0 is Err ==> fails_with(step, known.serve_config->0->Err_0)
            &&& served && known.statefulset is None ==> step.action is ApplyStatefulSet
                && step.notices.len() == 0
            &&& allowed && annotations.mode is Tun && known.statefulset is None
                ==> step.action is ApplyTunStatefulSet && step.notices.len() == 0
            &&& ready && known.statefulset is Some && known.statefulset->0 is Err ==> fails_with(
                step,
                known.statefulset->0->Err_0,
            )
            &&& deployed && annotations.mode is Tun && known.serve_config_deleted is None
                ==> silently(step, ProvisionActionView::DeleteServeConfig)
            &&& deployed && annotations.mode is Tun && known.serve_config_deleted is Some
                && known.serve_config_deleted->0 is Err ==> fails_with(
                step,
                known.serve_config_deleted->0->Err_0,
            )
        }),
{
    gates_open_for_a_ready_instance(
        known,
        svc.metadata.own_namespace(),
        annotations.headscale_ref@,
        ignored_settings(annotations),
    );
}

/// Whenever a StatefulSet is asked for, its proxy joins under the hostname of
/// the annotation and logs in at the instance that the annotation names: at
/// the URL of one outside the cluster, and at the Service of one that the
/// operator runs. One in userspace has the network that its Service got and
/// forwards nothing into the tailnet; one in the kernel sends on to the
/// ClusterIP, behind the node port that its Service got.
pub proof fn exposing_proxy_joins_as_the_annotation_says(
    svc: Service,
    ctx: Context,
    annotations: IngressAnnotations,
    known: ProvisionKnown,
)
    requires
        ({
            let action = expose_step(svc, ctx, Ok(annotations), known).action;
            action is ApplyStatefulSet || action is ApplyTunStatefulSet
        }),
    ensures
        known.instance is Some && known.instance->0 is Ok,
        known.networking is Some && known.networking->0 is Ok,
        ({
            let action = expose_step(svc, ctx, Ok(annotations), known).action;
            let instance = known.instance->0->Ok_0;
            let login_url = if instance.spec.external is Some {
                instance.spec.server_url@
            } else {
                "http://headscale-server-"@ + annotations.headscale_ref@ + "."@
                    + ctx.operator_namespace@ + ".svc.cluster.local:8080"@
            };
            &&& action is ApplyStatefulSet ==> {
                &&& annotations.mode is Tsnet
                &&& action->ApplyStatefulSet_hostname == annotations.hostname@
                &&& action->ApplyStatefulSet_login_url == login_url
                &&& action->networking == known.networking->0->Ok_0
                &&& action->egress is None
            }
            &&& action is ApplyTunStatefulSet ==> {
                &&& annotations.mode is Tun
                &&& action->ApplyTunStatefulSet_hostname == annotations.hostname@
                &&& action->ApplyTunStatefulSet_login_url == login_url
                &&& has_cluster_ip(svc)
                &&& action->dest_ip == svc.spec->0.cluster_ip->0@
                &&& known.networking->0->Ok_0 is NodePort ==> action->node_port
                    == known.networking->0->Ok_0->node_port
            }
        }),
{
    proxies_log_in_at_their_instance(
        known.instance->0->Ok_0,
        annotations.headscale_ref@,
        ctx.operator_namespace@,
    );
}

// ---- the end ----

/// What is asked for at the end, by what is known: left-overs of an egress
/// Service go, the Service is claimed, the tags of the annotation are set on
/// the node that registered, and the run ends with word on how far the proxy
/// is. Tags that could not be set are tried again later.
pub proof fn exposing_proxy_is_finished_in_order(
    svc: Service,
    ctx: Context,
    annotations: IngressAnnotations,
    known: ProvisionKnown,
)
    requires
        may_be_exposed(svc, annotations, known),
        went_well(known.networking),
        went_well(known.rbac),
        annotations.mode is Tsnet ==> went_well(known.serve_config),
        went_well(known.statefulset),
        annotations.mode is Tun ==> went_well(known.serve_config_deleted),
    ensures
        ({
            let step = expose_step(svc, ctx, Ok(annotations), known);
            let state = known.state->0->Ok_0;
            let wanted = annotations.managed_key_tags@.len() > 0 && registered_node(state) is Some;
            let cleared = went_well(known.network_policy_deleted);
            let claimed = cleared && went_well(known.claimed);
            &&& known.network_policy_deleted is None ==> silently(
                step,
                ProvisionActionView::DeleteNetworkPolicy,
            )
            &&& known.network_policy_deleted is Some && known.network_policy_deleted->0 is Err
                ==> fails_with(step, known.network_policy_deleted->0->Err_0)
            &&& cleared && known.claimed is None ==> silently(step, ProvisionActionView::Claim)
            &&& cleared && known.claimed is Some && known.claimed->0 is Err ==> fails_with(
                step,
                Error::Kube(known.claimed->0->Err_0),
            )
            &&& claimed && wanted && known.tagged is None ==> {
                &&& step.action is SetTags && step.notices.len() == 0
                &&& Some(step.action->node_id) == registered_node(state)
                &&& forall|tag: Seq<char>| #[trigger]
                    step.action->tags.contains(tag) <==> exists|i: int|
                        0 <= i < annotations.managed_key_tags@.len()
                            && #[trigger] annotations.managed_key_tags@[i]@ == tag
                &&& forall|i: int, j: int|
                    0 <= i < j < step.action->tags.len() ==> precedes(
                        #[trigger] step.action->tags[i],
                        #[trigger] step.action->tags[j],
                    )
            }
            &&& claimed && (wanted ==> known.tagged is Some) ==> {
                let notice = registration_notice(
                    state,
                    "proxy for exposed Service '"@,
                    svc.metadata.any_name(),
                    "proxy-authkey-"@ + service_base(
                        svc.metadata.own_namespace(),
                        svc.metadata.any_name(),
                    ),
                );
                &&& step.action == ProvisionActionView::Done(
                    Ok::<Requeue, Error>(
                        if wanted && known.tagged->0 is Err {
                            Requeue::After(30)
                        } else {
                            Requeue::AwaitChange
                        },
                    ),
                )
                &&& notice is Some ==> step.notices.len() == 1 && step.notices[0] == notice->0
                &&& notice is None ==> step.notices.len() == 0
            }
        }),
{
    gates_open_for_a_ready_instance(
        known,
        svc.metadata.own_namespace(),
        annotations.headscale_ref@,
        ignored_settings(annotations),
    );
    let state = known.state->0->Ok_0;
    let tags = texts_of(annotations.managed_key_tags@);
    tags_go_to_the_registered_node(state, tags);
    failed_tags_are_tried_again(known, state, tags);
    let step = expose_step(svc, ctx, Ok(annotations), known);
    if went_well(known.network_policy_deleted) && went_well(known.claimed)
        && annotations.managed_key_tags@.len() > 0 && registered_node(state) is Some
        && known.tagged is None {
        assert forall|tag: Seq<char>| #[trigger]
            step.action->tags.contains(tag) <==> exists|i: int|
                0 <= i < annotations.managed_key_tags@.len()
                    && #[trigger] annotations.managed_key_tags@[i]@ == tag by {
            if tags.contains(tag) {
                let i = tags.index_of(tag);
                assert(annotations.managed_key_tags@[i]@ == tag);
            }
            if exists|i: int|
                0 <= i < annotations.managed_key_tags@.len()
                    && #[trigger] annotations.managed_key_tags@[i]@ == tag {
                let i = choose|i: int|
                    0 <= i < annotations.managed_key_tags@.len()
                        && #[trigger] annotations.managed_key_tags@[i]@ == tag;
                assert(tags[i] == tag);
            }
        }
    }
}

} // verus!
