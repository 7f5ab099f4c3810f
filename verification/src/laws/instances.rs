//! Laws of instances: which Ingresses belong to one, what is asked for while
//! one is reconciled, what its status says, and how a deleted one goes.

use crate::error::Requeue;
use crate::headscale_instance::{
    contributes, contributing, exactly_contributing_are_listed, instance_cleanup_step,
    instance_step, is_named_tcp_port, is_server_service, InstanceAction, InstanceActionView,
    InstanceCleanupAction, InstanceCleanupActionView, InstanceCleanupKnown, InstanceError,
    InstanceKnown, Readiness, ReadinessView,
};
use crate::instance::HeadscaleInstance;
use crate::laws::annotations::{annotation_says, members_are_read_from_the_annotation};
use crate::laws::support::went_well;
use crate::objects::{texts_of, Ingress, Service, ServicePort};
use crate::step::StepView;
use vstd::prelude::*;
use vstd::string::*;

verus! {

// ---- Ingresses of an instance ----

/// Whether an Ingress has our class: its field says so, or it has no such
/// field and its annotation says so.
pub open spec fn is_of_our_class(ingress: Ingress) -> bool {
    if ingress.spec is Some && ingress.spec->0.ingress_class_name is Some {
        ingress.spec->0.ingress_class_name->0@ == "headmaster"@
    } else {
        ingress.metadata.annotations is Some && ingress.metadata.annotations->0@.contains_key(
            "kubernetes.io/ingress.class"@,
        ) && ingress.metadata.annotations->0@["kubernetes.io/ingress.class"@]@ == "headmaster"@
    }
}

/// The Ingresses of an instance are exactly those of our class whose
/// annotation names it and whose namespace it watches.
pub proof fn ingresses_belong_to_the_instance_they_name(
    ingress: Ingress,
    instance_name: Seq<char>,
    watched: Seq<Seq<char>>,
)
    ensures
        contributes(ingress, instance_name, watched) <==> is_of_our_class(ingress)
            && annotation_says(ingress.metadata, "headscale-ref"@, instance_name) && (
        watched.contains(ingress.metadata.own_namespace()) || watched.contains("*"@)),
{
    members_are_read_from_the_annotation(ingress.metadata, "headscale-ref"@, instance_name);
    let ns = ingress.metadata.own_namespace();
    if watched.contains(ns) {
        let i = watched.index_of(ns);
        assert(watched[i] == ns);
    }
    if watched.contains("*"@) {
        let i = watched.index_of("*"@);
        assert(watched[i] == "*"@);
    }
}

/// The Ingresses of an instance are listed by position, each once and in
/// order, and no position that is none.
pub proof fn ingresses_are_listed_in_order(
    all: Seq<Ingress>,
    instance_name: Seq<char>,
    watched: Seq<Seq<char>>,
)
    ensures
        forall|i: int, j: int|
            0 <= i < j < contributing(all, instance_name, watched).len()
                ==> #[trigger] contributing(all, instance_name, watched)[i]
                < #[trigger] contributing(all, instance_name, watched)[j],
        forall|i: int|
            0 <= i < contributing(all, instance_name, watched).len() ==> 0
                <= #[trigger] contributing(all, instance_name, watched)[i] < all.len(),
        forall|k: int|
            0 <= k < all.len() ==> (#[trigger] contributing(
                all,
                instance_name,
                watched,
            ).contains(k) <==> contributes(all[k], instance_name, watched)),
    decreases all.len(),
{
    assert forall|k: int| 0 <= k < all.len() implies (#[trigger] contributing(
        all,
        instance_name,
        watched,
    ).contains(k) <==> contributes(all[k], instance_name, watched)) by {
        exactly_contributing_are_listed(all, instance_name, watched, k);
    }
    if all.len() > 0 {
        let listed = contributing(all, instance_name, watched);
        let before = contributing(all.drop_last(), instance_name, watched);
        ingresses_are_listed_in_order(all.drop_last(), instance_name, watched);
        assert forall|i: int| 0 <= i < listed.len() implies 0 <= #[trigger] listed[i]
            < all.len() by {
            assert(i < before.len() ==> listed[i] == before[i]);
        }
        assert forall|i: int, j: int| 0 <= i < j < listed.len() implies #[trigger] listed[i]
            < #[trigger] listed[j] by {
            assert(listed[i] == before[i]);
            assert(j < before.len() ==> listed[j] == before[j]);
        }
    }
}

// ---- what a status says ----

/// What an error says in words.
pub proof fn instance_errors_name_their_cause(e: InstanceError)
    ensures
        match e {
            InstanceError::Kube(kube) => e.words() == kube.text@,
            InstanceError::MissingNamespace => e.words() == "object has no namespace"@,
            InstanceError::UnnamedObject => e.words() == "object has no name"@,
            InstanceError::ScimPolicyConflict => e.words()
                == "scim and policy groups are mutually exclusive: scim owns the groups section"@,
            InstanceError::ExternalSpecConflict => e.words()
                == "external is mutually exclusive with policy, scim and extraConfig"@,
            InstanceError::Other(text) => e.words() == text@,
        },
{
}

/// What a status says is what its fields hold.
pub proof fn readiness_says_what_it_holds(readiness: Readiness)
    ensures
        readiness@.ready == readiness.ready,
        readiness@.reason == readiness.reason@,
        readiness@.message == readiness.message@,
        readiness@.generation == readiness.generation,
{
}

/// What an action says is what its fields hold.
pub proof fn instance_actions_say_what_they_hold(action: InstanceAction)
    ensures
        match action {
            InstanceAction::GetStatefulSet { name } => action@
                == (InstanceActionView::GetStatefulSet { name: name@ }),
            InstanceAction::SyncPolicy { ingresses } => action@ is SyncPolicy
                && action@->ingresses.len() == ingresses@.len() && (forall|i: int|
                0 <= i < ingresses@.len() ==> #[trigger] action@->ingresses[i] == ingresses@[i]),
            InstanceAction::SetStatus(readiness) => action@ == InstanceActionView::SetStatus(
                readiness@,
            ),
            InstanceAction::TrySetStatus(readiness) => action@ == InstanceActionView::TrySetStatus(
                readiness@,
            ),
            InstanceAction::Done(result) => action@ == InstanceActionView::Done(result),
            InstanceAction::EnsureChildren => action@ is EnsureChildren,
            InstanceAction::EnsureApiKey => action@ is EnsureApiKey,
            InstanceAction::ListIngresses => action@ is ListIngresses,
            InstanceAction::EnsureScim => action@ is EnsureScim,
            InstanceAction::DeleteScim => action@ is DeleteScim,
            InstanceAction::Probe => action@ is Probe,
            InstanceAction::PublishTransitions => action@ is PublishTransitions,
        },
{
}

/// What an action of a cleanup says is what its fields hold.
pub proof fn cleanup_actions_say_what_they_hold(action: InstanceCleanupAction)
    ensures
        match action {
            InstanceCleanupAction::Orphan { ingresses } => action@ is Orphan
                && action@->ingresses.len() == ingresses@.len() && (forall|i: int|
                0 <= i < ingresses@.len() ==> #[trigger] action@->ingresses[i] == ingresses@[i]),
            InstanceCleanupAction::DeleteVolumeClaim { name } => action@
                == (InstanceCleanupActionView::DeleteVolumeClaim { name: name@ }),
            InstanceCleanupAction::Done(result) => action@ == InstanceCleanupActionView::Done(
                result,
            ),
            InstanceCleanupAction::ListIngresses => action@ is ListIngresses,
        },
{
}

// ---- reconciling ----

/// Whether an action puts a status of an instance in words.
pub open spec fn states(
    readiness: ReadinessView,
    obj: HeadscaleInstance,
    ready: bool,
    reason: Seq<char>,
    message: Seq<char>,
) -> bool {
    &&& readiness.ready == ready
    &&& readiness.reason == reason
    &&& readiness.message == message
    &&& readiness.generation == (if obj.metadata.generation is Some {
        obj.metadata.generation->0
    } else {
        0i64
    })
}

/// A failure is put into the status, which may fail, and is then reported.
pub open spec fn reports_failure(
    action: InstanceActionView,
    obj: HeadscaleInstance,
    known: InstanceKnown,
    reason: Seq<char>,
    message: Seq<char>,
    e: InstanceError,
) -> bool {
    &&& known.status is None ==> action is TrySetStatus && states(
        action->TrySetStatus_0,
        obj,
        false,
        reason,
        message,
    )
    &&& known.status is Some ==> action == InstanceActionView::Done(
        Err::<Requeue, InstanceError>(e),
    )
}

/// An outcome is put into the status, changes are published, and the instance
/// is looked at again later; a status that cannot be written ends the run.
pub open spec fn reports_outcome(
    action: InstanceActionView,
    obj: HeadscaleInstance,
    known: InstanceKnown,
    ready: bool,
    reason: Seq<char>,
    message: Seq<char>,
    again_secs: u64,
) -> bool {
    &&& known.status is None ==> action is SetStatus && states(
        action->SetStatus_0,
        obj,
        ready,
        reason,
        message,
    )
    &&& known.status is Some && known.status->0 is Err ==> action == InstanceActionView::Done(
        Err::<Requeue, InstanceError>(known.status->0->Err_0),
    )
    &&& went_well(known.status) && !known.published ==> action is PublishTransitions
    &&& went_well(known.status) && known.published ==> action == InstanceActionView::Done(
        Ok::<Requeue, InstanceError>(Requeue::After(again_secs)),
    )
}

/// An instance without a namespace is not reconciled.
pub proof fn instances_have_a_namespace(obj: HeadscaleInstance, known: InstanceKnown)
    requires
        obj.metadata.namespace is None,
    ensures
        instance_step(obj, known) == InstanceActionView::Done(
            Err::<Requeue, InstanceError>(InstanceError::MissingNamespace),
        ),
{
}

/// An instance outside the cluster is refused where it has settings of one
/// that the operator runs; else it is called once, and is ready where it
/// answered.
pub proof fn external_instances_are_ready_where_they_answer(
    obj: HeadscaleInstance,
    known: InstanceKnown,
)
    requires
        obj.metadata.namespace is Some,
        obj.spec.external is Some,
    ensures
        ({
            let action = instance_step(obj, known);
            let refused = obj.spec.has_policy || obj.spec.has_scim || obj.spec.has_extra_config;
            &&& refused ==> reports_failure(
                action,
                obj,
                known,
                "ExternalSpecConflict"@,
                "external is mutually exclusive with policy, scim and extraConfig"@,
                InstanceError::ExternalSpecConflict,
            )
            &&& !refused && known.probe is None ==> action is Probe
            &&& !refused && went_well(known.probe) ==> reports_outcome(
                action,
                obj,
                known,
                true,
                "ExternalReachable"@,
                "external headscale answered an authenticated gRPC call"@,
                60,
            )
            &&& !refused && known.probe is Some && known.probe->0 is Err ==> reports_outcome(
                action,
                obj,
                known,
                false,
                "ExternalUnreachable"@,
                "external headscale probe failed: "@ + known.probe->0->Err_0@,
                15,
            )
        }),
{
}

/// The server of an instance that the operator runs is set up and then waited
/// for: until a replica of its StatefulSet is ready the instance is not.
pub proof fn servers_are_waited_for(obj: HeadscaleInstance, known: InstanceKnown)
    requires
        obj.metadata.namespace is Some,
        obj.spec.external is None,
    ensures
        ({
            let action = instance_step(obj, known);
            let running = went_well(known.ready_replicas) && known.ready_replicas->0->Ok_0 is Some
                && known.ready_replicas->0->Ok_0->0 > 0;
            &&& known.children is None ==> action is EnsureChildren
            &&& known.children is Some && known.children->0 is Err ==> reports_failure(
                action,
                obj,
                known,
                "ChildApplyFailed"@,
                "failed to apply child resource: "@ + known.children->0->Err_0.words(),
                known.children->0->Err_0,
            )
            &&& went_well(known.children) && known.ready_replicas is None ==> action == (
            InstanceActionView::GetStatefulSet {
                name: "headscale-server-"@ + obj.metadata.any_name(),
            })
            &&& went_well(known.children) && known.ready_replicas is Some
                && known.ready_replicas->0 is Err ==> action == InstanceActionView::Done(
                Err::<Requeue, InstanceError>(
                    InstanceError::Kube(known.ready_replicas->0->Err_0),
                ),
            )
            &&& went_well(known.children) && went_well(known.ready_replicas) && !running
                ==> reports_outcome(
                action,
                obj,
                known,
                false,
                "StatefulSetNotReady"@,
                "headscale StatefulSet is not yet ready"@,
                10,
            )
        }),
{
}

/// What is asked for on a running server, by what is known: the API key, the
/// Ingresses, a policy with the grants of those that belong to the instance,
/// and user sync, set up where it is wanted and removed where it is not. What
/// fails is put into the status and reported; groups that both user sync and
/// the policy would own are refused. Only with all of it done is the instance
/// ready.
pub proof fn running_servers_are_worked_on_in_order(obj: HeadscaleInstance, known: InstanceKnown)
    requires
        obj.metadata.namespace is Some,
        obj.spec.external is None,
        went_well(known.children),
        went_well(known.ready_replicas),
        known.ready_replicas->0->Ok_0 is Some,
        known.ready_replicas->0->Ok_0->0 > 0,
    ensures
        ({
            let action = instance_step(obj, known);
            let keyed = went_well(known.api_key);
            let torn = obj.spec.has_scim && obj.spec.policy_has_groups;
            let listed = keyed && !torn && went_well(known.ingresses);
            let ruled = listed && went_well(known.policy);
            &&& known.api_key is None ==> action is EnsureApiKey
            &&& known.api_key is Some && known.api_key->0 is Err
                && !(known.api_key->0->Err_0 is ScimPolicyConflict) ==> reports_failure(
                action,
                obj,
                known,
                "ReconcileFailed"@,
                known.api_key->0->Err_0.words(),
                known.api_key->0->Err_0,
            )
            &&& keyed && torn ==> reports_failure(
                action,
                obj,
                known,
                "ScimPolicyConflict"@,
                "scim and policy groups are mutually exclusive: scim owns the groups section"@,
                InstanceError::ScimPolicyConflict,
            )
            &&& keyed && !torn && known.ingresses is None ==> action is ListIngresses
            &&& keyed && !torn && known.ingresses is Some && known.ingresses->0 is Err
                ==> reports_failure(
                action,
                obj,
                known,
                "ReconcileFailed"@,
                known.ingresses->0->Err_0.text@,
                InstanceError::Kube(known.ingresses->0->Err_0),
            )
            &&& listed && known.policy is None ==> action == (InstanceActionView::SyncPolicy {
                ingresses: contributing(
                    known.ingresses->0->Ok_0@,
                    obj.metadata.any_name(),
                    texts_of(obj.spec.watched_namespaces@),
                ),
            })
            &&& listed && known.policy is Some && known.policy->0 is Err
                && !(known.policy->0->Err_0 is ScimPolicyConflict) ==> reports_failure(
                action,
                obj,
                known,
                "ReconcileFailed"@,
                known.policy->0->Err_0.words(),
                known.policy->0->Err_0,
            )
            &&& ruled && known.scim is None && obj.spec.has_scim ==> action is EnsureScim
            &&& ruled && known.scim is None && !obj.spec.has_scim ==> action is DeleteScim
            &&& ruled && known.scim is Some && known.scim->0 is Err
                && !(known.scim->0->Err_0 is ScimPolicyConflict) ==> reports_failure(
                action,
                obj,
                known,
                "ReconcileFailed"@,
                known.scim->0->Err_0.words(),
                known.scim->0->Err_0,
            )
            &&& ruled && went_well(known.scim) ==> reports_outcome(
                action,
                obj,
                known,
                true,
                "StatefulSetReady"@,
                "headscale StatefulSet is ready"@,
                60,
            )
        }),
{
}

// ---- cleaning up ----

/// A step of a cleanup that says nothing.
pub open spec fn silently_cleans(
    step: StepView<InstanceCleanupActionView>,
    action: InstanceCleanupActionView,
) -> bool {
    step.action == action && step.notices.len() == 0
}

/// What is asked for while a deleted instance goes, by what is known: its
/// Ingresses of every namespace are told, where there are any, and the volume
/// claims of its server and of its user sync are deleted; then it is gone.
pub proof fn deleted_instances_go_in_order(obj: HeadscaleInstance, known: InstanceCleanupKnown)
    ensures
        ({
            let step = instance_cleanup_step(obj, known);
            let name = obj.metadata.any_name();
            let referring = contributing(known.ingresses->0->Ok_0@, name, seq!["*"@]);
            let told = went_well(known.ingresses) && (referring.len() == 0 || known.orphaned);
            let placed = told && obj.metadata.namespace is Some;
            let emptied = placed && went_well(known.server_claim);
            &&& known.ingresses is None ==> silently_cleans(
                step,
                InstanceCleanupActionView::ListIngresses,
            )
            &&& known.ingresses is Some && known.ingresses->0 is Err ==> silently_cleans(
                step,
                InstanceCleanupActionView::Done(
                    Err::<Requeue, InstanceError>(InstanceError::Kube(known.ingresses->0->Err_0)),
                ),
            )
            &&& went_well(known.ingresses) && !told ==> silently_cleans(
                step,
                InstanceCleanupActionView::Orphan { ingresses: referring },
            )
            &&& told && obj.metadata.namespace is None ==> silently_cleans(
                step,
                InstanceCleanupActionView::Done(
                    Err::<Requeue, InstanceError>(InstanceError::MissingNamespace),
                ),
            )
            &&& placed && known.server_claim is None ==> silently_cleans(
                step,
                InstanceCleanupActionView::DeleteVolumeClaim {
                    name: "data-headscale-server-"@ + name + "-0"@,
                },
            )
            &&& placed && known.server_claim is Some && known.server_claim->0 is Err
                ==> silently_cleans(
                step,
                InstanceCleanupActionView::Done(
                    Err::<Requeue, InstanceError>(known.server_claim->0->Err_0),
                ),
            )
            &&& emptied && known.scim_claim is None ==> silently_cleans(
                step,
                InstanceCleanupActionView::DeleteVolumeClaim {
                    name: "data-headscale-scim-"@ + name + "-0"@,
                },
            )
            &&& emptied && known.scim_claim is Some && known.scim_claim->0 is Err
                ==> silently_cleans(
                step,
                InstanceCleanupActionView::Done(
                    Err::<Requeue, InstanceError>(known.scim_claim->0->Err_0),
                ),
            )
            &&& emptied && went_well(known.scim_claim) ==> step.action
                == InstanceCleanupActionView::Done(
                Ok::<Requeue, InstanceError>(Requeue::AwaitChange),
            ) && step.notices.len() == 1 && step.notices[0] is Deleted
        }),
{
}

// ---- children ----

/// A port of the server's Service is a TCP port with its number and name, and
/// leads to the container port of its name.
pub proof fn server_ports_lead_to_their_namesakes(
    port: ServicePort,
    name: Seq<char>,
    number: i32,
)
    requires
        is_named_tcp_port(port, name, number),
    ensures
        port.name is Some && port.name->0@ == name,
        port.port == number,
        port.protocol is Some && port.protocol->0@ == "TCP"@,
        port.target_port is Some && port.target_port->0 is String
            && port.target_port->0->String_0@ == name,
        port.node_port is None,
{
}

/// The Service of a server has its name and its three ports, in order, and the
/// default type.
pub proof fn server_is_reached_at_its_service(
    svc: Service,
    instance_name: Seq<char>,
    http: i32,
    metrics: i32,
    grpc: i32,
)
    requires
        is_server_service(svc, instance_name, http, metrics, grpc),
    ensures
        svc.metadata.name is Some && svc.metadata.name->0@ == "headscale-server-"@ + instance_name,
        svc.spec is Some && svc.spec->0.type_ is None && svc.spec->0.cluster_ip is None
            && svc.spec->0.external_name is None && svc.spec->0.external_traffic_policy is None,
        svc.spec->0.ports is Some && svc.spec->0.ports->0@.len() == 3,
        svc.spec->0.ports->0@[0].port == http && svc.spec->0.ports->0@[0].name->0@ == "http"@,
        svc.spec->0.ports->0@[1].port == metrics && svc.spec->0.ports->0@[1].name->0@
            == "metrics"@,
        svc.spec->0.ports->0@[2].port == grpc && svc.spec->0.ports->0@[2].name->0@ == "grpc"@,
{
}

} // verus!
