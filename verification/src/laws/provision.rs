//! Laws of what provisioning has in common: the gates, giving a Service up,
//! where a proxy logs in, its tags, and what is said of it.

use crate::auth_key::AuthKeyRequest;
use crate::error::{reported_error, Error, ErrorView, FinalizerFailure, Requeue};
use crate::instance::HeadscaleInstance;
use crate::json::json_of;
use crate::laws::annotations::{annotation_says, members_are_read_from_the_annotation};
use crate::laws::support::{absent, holds, texts_are_read_as_they_were_written, went_well};
use crate::objects::{ObjectMeta, Secret};
use crate::provision::{
    gate_step, login_url_of, provisioned, registration_notice, release_step, standing_notice,
    tags_request, teardown_of, ProvisionAction, ProvisionActionView, ProvisionKnown,
};
use crate::sort::sorted_set_is_sorted;
use crate::step::{notice_of, Notice, NoticeView, Step, StepView};
use crate::support::{registered_node, secret_text};
use crate::text::precedes;
use vstd::prelude::*;
use vstd::string::*;
use vstd::utf8::*;

verus! {

/// A step that takes an action and says nothing.
pub open spec fn silently(step: StepView<ProvisionActionView>, action: ProvisionActionView) -> bool {
    step.action == action && step.notices.len() == 0
}

/// A step that gives one warning and takes an action.
pub open spec fn warning_of(
    step: StepView<ProvisionActionView>,
    reason: Seq<char>,
    message: Seq<char>,
    action: ProvisionActionView,
) -> bool {
    step.action == action && step.notices.len() == 1 && step.notices[0] == (NoticeView::Warning {
        reason,
        message,
    })
}

/// A step that ends the run with an error.
pub open spec fn fails_with(step: StepView<ProvisionActionView>, e: Error) -> bool {
    silently(step, ProvisionActionView::Done(Err::<Requeue, Error>(e)))
}

/// A step that ends the run well.
pub open spec fn ends_with(step: StepView<ProvisionActionView>, requeue: Requeue) -> bool {
    silently(step, ProvisionActionView::Done(Ok::<Requeue, Error>(requeue)))
}

/// What a step says is what it holds: its notices, in order, and its action.
pub proof fn steps_say_what_they_hold<A: View>(step: Step<A>)
    ensures
        step@.action == step.action@,
        step@.notices.len() == step.notices@.len(),
        forall|i: int|
            0 <= i < step.notices@.len() ==> #[trigger] step@.notices[i] == step.notices@[i]@,
{
}

/// What a notice says is what it holds, and no notice says nothing.
pub proof fn notices_say_what_they_hold(notice: Notice)
    ensures
        match notice {
            Notice::Ready => notice@ is Ready,
            Notice::Deleted => notice@ is Deleted,
            Notice::Warning(warning) => notice@ == (NoticeView::Warning {
                reason: warning.reason@,
                message: warning.message@,
            }),
        },
        notice_of(Some(notice)) == Some(notice@),
        notice_of(None::<Notice>) is None,
{
}

/// What an error says is what it holds.
pub proof fn errors_say_what_they_hold(e: Error)
    ensures
        match e {
            Error::Kube(kube) => e@ == (ErrorView::Kube {
                api_code: kube.api_code,
                text: kube.text@,
            }),
            Error::HeadscaleApi(status) => e@ == (ErrorView::HeadscaleApi {
                code: status.code,
                message: status.message@,
            }),
            Error::Annotation(annotation) => e@ == ErrorView::Annotation(annotation.words()),
            Error::MissingNamespace => e@ is MissingNamespace,
            Error::UnnamedObject => e@ is UnnamedObject,
            Error::NodePortNotAssigned => e@ is NodePortNotAssigned,
        },
{
}

/// What an action says is what its fields hold.
pub proof fn actions_say_what_they_hold(action: ProvisionAction)
    ensures
        match action {
            ProvisionAction::Deregister { headscale_ref } => action@
                == (ProvisionActionView::Deregister { headscale_ref: headscale_ref@ }),
            ProvisionAction::GetInstance { name } => action@ == (ProvisionActionView::GetInstance {
                name: name@,
            }),
            ProvisionAction::Connect { headscale_ref } => action@
                == (ProvisionActionView::Connect { headscale_ref: headscale_ref@ }),
            ProvisionAction::ResetIfRetargeted { headscale_ref } => action@
                == (ProvisionActionView::ResetIfRetargeted { headscale_ref: headscale_ref@ }),
            ProvisionAction::RotateStaleKey { expiry_secs } => action@
                == (ProvisionActionView::RotateStaleKey { expiry_secs }),
            ProvisionAction::EnsureAuthKey(request) => action@
                == ProvisionActionView::EnsureAuthKey(request@),
            ProvisionAction::EnsureState { headscale_ref } => action@
                == (ProvisionActionView::EnsureState { headscale_ref: headscale_ref@ }),
            ProvisionAction::ApplyWireguard { host_network, forwards } => action@
                == (ProvisionActionView::ApplyWireguard { host_network, forwards: forwards@ }),
            ProvisionAction::ApplyServeConfig { serve_json } => action@
                == (ProvisionActionView::ApplyServeConfig { serve_json: json_of(serve_json) }),
            ProvisionAction::ApplyNetworkPolicy { peers } => action@ is ApplyNetworkPolicy
                && action@->peers.len() == peers@.len() && (forall|i: int|
                0 <= i < peers@.len() ==> #[trigger] action@->peers[i] == peers@[i]@),
            ProvisionAction::ApplyStatefulSet { login_url, hostname, networking, egress } => {
                &&& action@ is ApplyStatefulSet
                &&& action@->ApplyStatefulSet_login_url == login_url@
                &&& action@->ApplyStatefulSet_hostname == hostname@
                &&& action@->networking == networking
                &&& action@->egress is Some <==> egress is Some
                &&& egress is Some ==> action@->egress->0.image == egress->0.image@
                    && action@->egress->0.host == egress->0.host@ && action@->egress->0.forwards
                    == egress->0.forwards@
            },
            ProvisionAction::ApplyTunStatefulSet { login_url, hostname, dest_ip, node_port } =>
                action@ == (ProvisionActionView::ApplyTunStatefulSet {
                login_url: login_url@,
                hostname: hostname@,
                dest_ip: dest_ip@,
                node_port,
            }),
            ProvisionAction::SetTags { node_id, tags } => action@ is SetTags && action@->node_id
                == node_id && action@->tags.len() == tags@.len() && (forall|i: int|
                0 <= i < tags@.len() ==> #[trigger] action@->tags[i] == tags@[i]@),
            ProvisionAction::PointAtProxy { external_name } => action@
                == (ProvisionActionView::PointAtProxy { external_name: external_name@ }),
            ProvisionAction::Done(result) => action@ == ProvisionActionView::Done(result),
            ProvisionAction::DeleteResources => action@ is DeleteResources,
            ProvisionAction::Release => action@ is Release,
            ProvisionAction::GetNamespace => action@ is GetNamespace,
            ProvisionAction::ApplyRbac => action@ is ApplyRbac,
            ProvisionAction::DeleteServeConfig => action@ is DeleteServeConfig,
            ProvisionAction::DeleteNetworkPolicy => action@ is DeleteNetworkPolicy,
            ProvisionAction::Claim => action@ is Claim,
        },
{
}

/// What a request for a key says is what its fields hold.
pub proof fn key_requests_say_what_they_hold(request: AuthKeyRequest)
    ensures
        request@.user is Some <==> request.user is Some,
        request.user is Some ==> request@.user->0 == request.user->0@,
        request@.managed_key_tags.len() == request.managed_key_tags@.len(),
        forall|i: int|
            0 <= i < request.managed_key_tags@.len() ==> #[trigger] request@.managed_key_tags[i]
                == request.managed_key_tags@[i]@,
        request@.auto_tag is Some <==> request.auto_tag is Some,
        request.auto_tag is Some ==> request@.auto_tag->0 == request.auto_tag->0@,
        request@.expiry_secs == request.expiry_secs,
        request@.reusable == request.reusable,
        request@.ephemeral == request.ephemeral,
{
}

// ---- giving a Service up ----

/// A Service is given up in two steps, of which the second is taken only when
/// the first succeeded: its proxy is taken down, then it is released. What was
/// to be said is said before the first.
pub proof fn giving_up_takes_its_course(
    known: ProvisionKnown,
    teardown: ProvisionActionView,
    notice: Option<NoticeView>,
)
    ensures
        ({
            let step = release_step(known, teardown, notice);
            &&& known.torn_down is None ==> step.action == teardown && (if notice is Some {
                step.notices.len() == 1 && step.notices[0] == notice->0
            } else {
                step.notices.len() == 0
            })
            &&& known.torn_down is Some && known.torn_down->0 is Err ==> fails_with(
                step,
                known.torn_down->0->Err_0,
            )
            &&& went_well(known.torn_down) && known.released is None ==> silently(
                step,
                ProvisionActionView::Release,
            )
            &&& went_well(known.torn_down) && known.released is Some && known.released->0 is Err
                ==> fails_with(step, known.released->0->Err_0)
            &&& went_well(known.torn_down) && went_well(known.released) ==> ends_with(
                step,
                Requeue::AwaitChange,
            )
        }),
{
}

/// A proxy is taken down with its node where the annotation still names an
/// instance, and its resources alone where it does not.
pub proof fn node_goes_where_an_instance_is_named(meta: ObjectMeta, headscale_ref: Seq<char>)
    ensures
        annotation_says(meta, "headscale-ref"@, headscale_ref) ==> teardown_of(meta)
            == (ProvisionActionView::Deregister { headscale_ref }),
        (forall|other: Seq<char>| !annotation_says(meta, "headscale-ref"@, other)) ==> teardown_of(
            meta,
        ) is DeleteResources,
{
    members_are_read_from_the_annotation(meta, "headscale-ref"@, headscale_ref);
    match crate::annotations::config_text(meta, "headscale-ref"@) {
        Some(named) => {
            members_are_read_from_the_annotation(meta, "headscale-ref"@, named);
        },
        None => {},
    }
}

// ---- gates ----

/// The gates open exactly for a namespace that exists and stays, of a ready
/// instance that watches it.
pub proof fn gates_open_for_a_ready_instance(
    known: ProvisionKnown,
    ns: Seq<char>,
    headscale_ref: Seq<char>,
    notices: Seq<NoticeView>,
)
    ensures
        gate_step(known, ns, headscale_ref, notices) is None <==> went_well(known.namespace)
            && known.namespace->0->Ok_0.deletion_timestamp is None && went_well(known.instance)
            && known.instance->0->Ok_0.allows(ns) && known.instance->0->Ok_0.ready is Some
            && known.instance->0->Ok_0.ready->0,
{
}

/// What is done where the gates do not open: the namespace is read first, then
/// the instance that the annotation names. A namespace that goes away is left;
/// a missing or unready instance is waited for, with a warning; a namespace
/// that the instance does not watch is given up, with a warning.
pub proof fn closed_gates_say_why(
    known: ProvisionKnown,
    ns: Seq<char>,
    headscale_ref: Seq<char>,
    notices: Seq<NoticeView>,
)
    requires
        gate_step(known, ns, headscale_ref, notices) is Some,
    ensures
        ({
            let step = gate_step(known, ns, headscale_ref, notices)->0;
            let stays = went_well(known.namespace)
                && known.namespace->0->Ok_0.deletion_timestamp is None;
            &&& known.namespace is None ==> step.action is GetNamespace && step.notices == notices
            &&& known.namespace is Some && known.namespace->0 is Err && !absent(
                known.namespace->0->Err_0,
            ) ==> fails_with(step, Error::Kube(known.namespace->0->Err_0))
            &&& known.namespace is Some && known.namespace->0 is Err && absent(
                known.namespace->0->Err_0,
            ) ==> ends_with(step, Requeue::AwaitChange)
            &&& went_well(known.namespace) && !stays ==> ends_with(step, Requeue::AwaitChange)
            &&& stays && known.instance is None ==> silently(
                step,
                ProvisionActionView::GetInstance { name: headscale_ref },
            )
            &&& stays && known.instance is Some && known.instance->0 is Err && absent(
                known.instance->0->Err_0,
            ) ==> warning_of(
                step,
                "Pending"@,
                "HeadscaleInstance '"@ + headscale_ref + "' does not exist"@,
                ProvisionActionView::Done(Ok::<Requeue, Error>(Requeue::After(30))),
            )
            &&& stays && known.instance is Some && known.instance->0 is Err && !absent(
                known.instance->0->Err_0,
            ) ==> fails_with(step, Error::Kube(known.instance->0->Err_0))
            &&& stays && went_well(known.instance) && !known.instance->0->Ok_0.allows(ns)
                && known.torn_down is None ==> warning_of(
                step,
                "NamespaceExcluded"@,
                "namespace '"@ + ns + "' is not in HeadscaleInstance '"@ + headscale_ref
                    + "' watchedNamespaces; this Service is now orphaned"@,
                ProvisionActionView::Deregister { headscale_ref },
            )
            &&& stays && went_well(known.instance) && !known.instance->0->Ok_0.allows(ns)
                && known.torn_down is Some && known.torn_down->0 is Err ==> fails_with(
                step,
                known.torn_down->0->Err_0,
            )
            &&& stays && went_well(known.instance) && !known.instance->0->Ok_0.allows(ns)
                && went_well(known.torn_down) && known.released is None ==> silently(
                step,
                ProvisionActionView::Release,
            )
            &&& stays && went_well(known.instance) && !known.instance->0->Ok_0.allows(ns)
                && went_well(known.torn_down) && known.released is Some && known.released->0 is Err
                ==> fails_with(step, known.released->0->Err_0)
            &&& stays && went_well(known.instance) && !known.instance->0->Ok_0.allows(ns)
                && went_well(known.torn_down) && went_well(known.released) ==> ends_with(
                step,
                Requeue::AwaitChange,
            )
            &&& stays && went_well(known.instance) && known.instance->0->Ok_0.allows(ns)
                ==> warning_of(
                step,
                "Pending"@,
                "HeadscaleInstance '"@ + headscale_ref + "' is not yet ready"@,
                ProvisionActionView::Done(Ok::<Requeue, Error>(Requeue::After(5))),
            )
        }),
{
}

// ---- where a proxy logs in ----

/// A proxy logs in at the URL of an instance outside the cluster, and at the
/// Service of one that the operator runs.
pub proof fn proxies_log_in_at_their_instance(
    instance: HeadscaleInstance,
    headscale_ref: Seq<char>,
    operator_namespace: Seq<char>,
)
    ensures
        instance.spec.external is Some ==> login_url_of(
            instance,
            headscale_ref,
            operator_namespace,
        ) == instance.spec.server_url@,
        instance.spec.external is None ==> login_url_of(
            instance,
            headscale_ref,
            operator_namespace,
        ) == "http://headscale-server-"@ + headscale_ref + "."@ + operator_namespace
            + ".svc.cluster.local:8080"@,
{
}

// ---- tags ----

/// Tags are set exactly where the proxy registered and some are wanted: on the
/// node that it registered as, each wanted tag once and in order, and no other.
pub proof fn tags_go_to_the_registered_node(state: Secret, tags: Seq<Seq<char>>)
    ensures
        tags_request(state, tags) is Some <==> registered_node(state) is Some && tags.len() > 0,
        tags_request(state, tags) is Some ==> ({
            let request = tags_request(state, tags)->0;
            &&& request is SetTags
            &&& Some(request->node_id) == registered_node(state)
            &&& forall|tag: Seq<char>| #[trigger]
                request->tags.contains(tag) <==> tags.contains(tag)
            &&& forall|i: int, j: int|
                0 <= i < j < request->tags.len() ==> precedes(
                    #[trigger] request->tags[i],
                    #[trigger] request->tags[j],
                )
        }),
{
    sorted_set_is_sorted(tags);
    let sorted = crate::sort::sorted_set(tags);
    if tags.len() > 0 {
        assert(tags.contains(tags[0]));
        assert(sorted.contains(tags[0]));
    }
    if sorted.len() > 0 {
        assert(sorted.contains(sorted[0]));
        assert(tags.contains(sorted[0]));
    }
}

/// The end comes with another look after half a minute where tags were to be
/// set and could not be, and else awaits a change.
pub proof fn failed_tags_are_tried_again(
    known: ProvisionKnown,
    state: Secret,
    tags: Seq<Seq<char>>,
)
    ensures
        provisioned(known, state, tags) == ProvisionActionView::Done(
            Ok::<Requeue, Error>(
                if registered_node(state) is Some && tags.len() > 0 && known.tagged is Some
                    && known.tagged->0 is Err {
                    Requeue::After(30)
                } else {
                    Requeue::AwaitChange
                },
            ),
        ),
{
    tags_go_to_the_registered_node(state, tags);
}

// ---- what is said ----

/// A proxy that has not registered is warned about, with the Secret to delete;
/// one that has is ready once it has an address, and till then nothing is said.
pub proof fn standing_is_said(
    registered: bool,
    ips: Option<Seq<Seq<char>>>,
    parent: Seq<char>,
    name: Seq<char>,
    secret_name: Seq<char>,
)
    ensures
        ({
            let notice = standing_notice(registered, ips, parent, name, secret_name);
            &&& !registered ==> notice == Some(
                NoticeView::Warning {
                    reason: "ProxyNotRegistered"@,
                    message: parent + name
                        + "' has not registered with headscale; if this persists beyond the auth-key expiry window, delete the Secret '"@
                        + secret_name + "' to force key rotation"@,
                },
            )
            &&& notice == Some(NoticeView::Ready) <==> registered && ips is Some && ips->0.len() > 0
            &&& notice is None <==> registered && (ips is None || ips->0.len() == 0)
        }),
{
}

/// A proxy has registered once its state Secret records a device as text, and
/// its addresses are those that the Secret lists.
pub proof fn standing_is_read_from_the_state(
    state: Secret,
    parent: Seq<char>,
    name: Seq<char>,
    secret_name: Seq<char>,
)
    ensures
        registration_notice(state, parent, name, secret_name) == standing_notice(
            exists|text: Seq<char>| #[trigger] holds(state, "device_id"@, encode_utf8(text)),
            if state.data is Some && state.data->0@.contains_key("device_ips"@) {
                crate::json::parsed_text_list(state.data->0@["device_ips"@]@)
            } else {
                None
            },
            parent,
            name,
            secret_name,
        ),
{
    match secret_text(state, "device_id"@) {
        Some(text) => {
            texts_are_read_as_they_were_written(state, "device_id"@, text);
            assert(holds(state, "device_id"@, encode_utf8(text)));
        },
        None => {
            assert forall|text: Seq<char>| !#[trigger] holds(
                state,
                "device_id"@,
                encode_utf8(text),
            ) by {
                texts_are_read_as_they_were_written(state, "device_id"@, text);
            }
        },
    }
}

/// A guarded reconciliation reports what failed: the error of what it guards,
/// or the failed call on the finalizer.
pub proof fn failures_are_reported_as_they_are(failure: FinalizerFailure)
    ensures
        match failure {
            FinalizerFailure::ApplyFailed(e) => reported_error(failure) == e,
            FinalizerFailure::CleanupFailed(e) => reported_error(failure) == e,
            FinalizerFailure::AddFinalizer(e) => reported_error(failure) == Error::Kube(e),
            FinalizerFailure::RemoveFinalizer(e) => reported_error(failure) == Error::Kube(e),
            FinalizerFailure::UnnamedObject => reported_error(failure) is UnnamedObject,
        },
{
}

} // verus!
