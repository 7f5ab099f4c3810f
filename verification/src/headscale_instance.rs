//! The reconciliation of HeadscaleInstances: those that the operator runs
//! itself, and those that run outside the cluster.

use crate::annotations::config_text;
use crate::error::{KubeError, Requeue};
use crate::external_service::refers_to;
use crate::instance::{covers, namespace_covered, HeadscaleInstance};
use crate::objects::{
    text_of, texts_of, Ingress, IntOrString, ObjectMeta, Service, ServicePort, ServiceSpec,
};
use crate::step::{noting, quietly, warning, Notice, NoticeView, Step, StepView, Warning};
use crate::text::{join2, join3, same_text};
use vstd::prelude::*;
use vstd::string::*;

verus! {

pub const INGRESS_CLASS_NAME: &'static str = "headmaster";

/// Annotation that named the class of an Ingress before there was a field.
pub const INGRESS_CLASS_ANNOTATION: &'static str = "kubernetes.io/ingress.class";

// ---- errors and status ----

/// Why an instance could not be reconciled.
#[derive(Debug, PartialEq, Eq)]
pub enum InstanceError {
    Kube(KubeError),
    MissingNamespace,
    UnnamedObject,
    /// User sync and the policy both want to own the groups.
    ScimPolicyConflict,
    /// An external instance has settings that only make sense for one that the
    /// operator runs.
    ExternalSpecConflict,
    /// Another failure, in words.
    Other(String),
}

impl Clone for InstanceError {
    fn clone(&self) -> (copy: Self)
        ensures
            copy == *self,
    {
        match self {
            InstanceError::Kube(e) => InstanceError::Kube(e.clone()),
            InstanceError::MissingNamespace => InstanceError::MissingNamespace,
            InstanceError::UnnamedObject => InstanceError::UnnamedObject,
            InstanceError::ScimPolicyConflict => InstanceError::ScimPolicyConflict,
            InstanceError::ExternalSpecConflict => InstanceError::ExternalSpecConflict,
            InstanceError::Other(text) => InstanceError::Other(text.clone()),
        }
    }
}

impl InstanceError {
    /// The error in words.
    pub open spec fn words(&self) -> Seq<char> {
        match self {
            InstanceError::Kube(e) => e.text@,
            InstanceError::MissingNamespace => "object has no namespace"@,
            InstanceError::UnnamedObject => "object has no name"@,
            InstanceError::ScimPolicyConflict =>
                "scim and policy groups are mutually exclusive: scim owns the groups section"@,
            InstanceError::ExternalSpecConflict =>
                "external is mutually exclusive with policy, scim and extraConfig"@,
            InstanceError::Other(text) => text@,
        }
    }

    /// The error in words.
    pub fn message(&self) -> (text: String)
        ensures
            text@ == self.words(),
    {
        match self {
            InstanceError::Kube(e) => e.text.clone(),
            InstanceError::MissingNamespace => String::from_str("object has no namespace"),
            InstanceError::UnnamedObject => String::from_str("object has no name"),
            InstanceError::ScimPolicyConflict => String::from_str(
                "scim and policy groups are mutually exclusive: scim owns the groups section",
            ),
            InstanceError::ExternalSpecConflict => String::from_str(
                "external is mutually exclusive with policy, scim and extraConfig",
            ),
            InstanceError::Other(text) => text.clone(),
        }
    }
}

/// What the status of an instance is to say.
#[derive(Debug, PartialEq, Eq)]
pub struct Readiness {
    pub ready: bool,
    pub reason: &'static str,
    pub message: String,
    /// Generation of the object that this is said of.
    pub generation: i64,
}

/// What a readiness says.
pub struct ReadinessView {
    pub ready: bool,
    pub reason: Seq<char>,
    pub message: Seq<char>,
    pub generation: i64,
}

impl View for Readiness {
    type V = ReadinessView;

    open spec fn view(&self) -> ReadinessView {
        ReadinessView {
            ready: self.ready,
            reason: self.reason@,
            message: self.message@,
            generation: self.generation,
        }
    }
}

// ---- Ingresses of an instance ----

/// The class of an Ingress: by its field, else by its annotation.
pub open spec fn class_of(ingress: Ingress) -> Option<Seq<char>> {
    if ingress.spec is Some && ingress.spec->0.ingress_class_name is Some {
        Some(ingress.spec->0.ingress_class_name->0@)
    } else {
        ingress.metadata.annotation_of(INGRESS_CLASS_ANNOTATION@)
    }
}

/// Whether an Ingress belongs to an instance: it has our class, its annotation
/// names the instance, and its namespace is watched.
pub open spec fn contributes(
    ingress: Ingress,
    instance_name: Seq<char>,
    watched: Seq<Seq<char>>,
) -> bool {
    &&& class_of(ingress) == Some(INGRESS_CLASS_NAME@)
    &&& config_text(ingress.metadata, "headscale-ref"@) == Some(instance_name)
    &&& covers(watched, ingress.metadata.own_namespace())
}

/// Positions of the Ingresses that belong to an instance.
pub open spec fn contributing(
    all: Seq<Ingress>,
    instance_name: Seq<char>,
    watched: Seq<Seq<char>>,
) -> Seq<int>
    decreases all.len(),
{
    if all.len() == 0 {
        Seq::empty()
    } else {
        let front = contributing(all.drop_last(), instance_name, watched);
        if contributes(all.last(), instance_name, watched) {
            front.push(all.len() - 1)
        } else {
            front
        }
    }
}

/// What positions stand for.
pub open spec fn positions(indices: Seq<usize>) -> Seq<int> {
    indices.map_values(|i: usize| i as int)
}

fn has_our_class(ingress: &Ingress) -> (result: bool)
    ensures
        result == (class_of(*ingress) == Some(INGRESS_CLASS_NAME@)),
{
    if let Some(spec) = &ingress.spec {
        if let Some(class) = &spec.ingress_class_name {
            return same_text(class.as_str(), INGRESS_CLASS_NAME);
        }
    }
    match ingress.metadata.annotation(INGRESS_CLASS_ANNOTATION) {
        Some(class) => same_text(class.as_str(), INGRESS_CLASS_NAME),
        None => false,
    }
}

/// Lists the Ingresses that belong to an instance, by position.
pub fn list_contributing_ingresses(
    all: &Vec<Ingress>,
    instance_name: &str,
    watched_namespaces: &Vec<String>,
) -> (indices: Vec<usize>)
    ensures
        positions(indices@) == contributing(all@, instance_name@, texts_of(watched_namespaces@)),
{
    let ghost watched = texts_of(watched_namespaces@);
    let mut indices: Vec<usize> = Vec::new();
    let mut i: usize = 0;
    proof {
        assert(all@.take(0) =~= Seq::empty());
        assert(positions(indices@) =~= Seq::empty());
    }
    while i < all.len()
        invariant
            i <= all@.len(),
            watched == texts_of(watched_namespaces@),
            positions(indices@) == contributing(all@.take(i as int), instance_name@, watched),
        decreases all@.len() - i,
    {
        let ingress = &all[i];
        proof {
            assert(all@.take(i + 1).drop_last() =~= all@.take(i as int));
            assert(all@.take(i + 1).last() == *ingress);
        }
        if has_our_class(ingress) && refers_to(ingress, instance_name) && namespace_covered(
            watched_namespaces,
            ingress.metadata.namespace_or_default().as_str(),
        ) {
            let ghost before = positions(indices@);
            indices.push(i);
            proof {
                assert(positions(indices@) =~= before.push(i as int));
            }
        }
        i = i + 1;
    }
    proof {
        assert(all@.take(i as int) =~= all@);
    }
    indices
}

/// The listed positions are exactly those of the Ingresses that belong to the
/// instance.
pub proof fn exactly_contributing_are_listed(
    all: Seq<Ingress>,
    instance_name: Seq<char>,
    watched: Seq<Seq<char>>,
    i: int,
)
    requires
        0 <= i < all.len(),
    ensures
        contributing(all, instance_name, watched).contains(i) <==> contributes(
            all[i],
            instance_name,
            watched,
        ),
    decreases all.len(),
{
    let front = all.drop_last();
    let listed = contributing(all, instance_name, watched);
    let before = contributing(front, instance_name, watched);
    lemma_contributing_in_range(front, instance_name, watched);
    if i < front.len() {
        exactly_contributing_are_listed(front, instance_name, watched, i);
        assert(front[i] == all[i]);
        if before.contains(i) {
            let k = before.index_of(i);
            assert(listed[k] == i);
        }
        if listed.contains(i) {
            let k = listed.index_of(i);
            assert(k < before.len());
            assert(before[k] == i);
        }
    } else {
        if listed.contains(i) && !contributes(all[i], instance_name, watched) {
            let k = before.index_of(i);
            assert(before[k] == i);
        }
        if contributes(all[i], instance_name, watched) {
            assert(listed[before.len() as int] == i);
        }
    }
}

proof fn lemma_contributing_in_range(
    all: Seq<Ingress>,
    instance_name: Seq<char>,
    watched: Seq<Seq<char>>,
)
    ensures
        forall|k: int|
            0 <= k < contributing(all, instance_name, watched).len() ==> 0 <= #[trigger] contributing(
                all,
                instance_name,
                watched,
            )[k] < all.len(),
    decreases all.len(),
{
    if all.len() > 0 {
        let front = all.drop_last();
        let before = contributing(front, instance_name, watched);
        let listed = contributing(all, instance_name, watched);
        lemma_contributing_in_range(front, instance_name, watched);
        assert forall|k: int| 0 <= k < listed.len() implies 0 <= #[trigger] listed[k]
            < all.len() by {
            if k < before.len() {
                assert(listed[k] == before[k]);
            }
        }
    }
}

// ---- reconciling ----

/// What is known while an instance is reconciled.
#[derive(Debug)]
pub struct InstanceKnown {
    /// Whether the ConfigMap, the Service and the StatefulSet were applied.
    pub children: Option<Result<(), InstanceError>>,
    /// The ready replicas of the StatefulSet.
    pub ready_replicas: Option<Result<Option<i32>, KubeError>>,
    pub api_key: Option<Result<(), InstanceError>>,
    /// All Ingresses of the cluster.
    pub ingresses: Option<Result<Vec<Ingress>, KubeError>>,
    pub policy: Option<Result<(), InstanceError>>,
    /// Whether user sync was set up, or removed where it is not wanted.
    pub scim: Option<Result<(), InstanceError>>,
    /// Whether an authenticated call to an external server succeeded.
    pub probe: Option<Result<(), String>>,
    /// Whether the status was written.
    pub status: Option<Result<(), InstanceError>>,
    /// Whether changes of the status were published.
    pub published: bool,
}

impl InstanceKnown {
    /// Nothing is known.
    pub fn nothing() -> (known: Self)
        ensures
            known == (InstanceKnown {
                children: None,
                ready_replicas: None,
                api_key: None,
                ingresses: None,
                policy: None,
                scim: None,
                probe: None,
                status: None,
                published: false,
            }),
    {
        InstanceKnown {
            children: None,
            ready_replicas: None,
            api_key: None,
            ingresses: None,
            policy: None,
            scim: None,
            probe: None,
            status: None,
            published: false,
        }
    }
}

/// What reconciling an instance asks for.
#[derive(Debug)]
pub enum InstanceAction {
    EnsureChildren,
    GetStatefulSet { name: String },
    EnsureApiKey,
    ListIngresses,
    /// Write the policy, with the grants of the Ingresses at these positions.
    SyncPolicy { ingresses: Vec<usize> },
    EnsureScim,
    DeleteScim,
    /// Make an authenticated call to the external server.
    Probe,
    /// Write the status.
    SetStatus(Readiness),
    /// Write the status, and go on whether or not it can be written.
    TrySetStatus(Readiness),
    PublishTransitions,
    Done(Result<Requeue, InstanceError>),
}

/// What an action of reconciling an instance says.
pub enum InstanceActionView {
    EnsureChildren,
    GetStatefulSet { name: Seq<char> },
    EnsureApiKey,
    ListIngresses,
    SyncPolicy { ingresses: Seq<int> },
    EnsureScim,
    DeleteScim,
    Probe,
    SetStatus(ReadinessView),
    TrySetStatus(ReadinessView),
    PublishTransitions,
    Done(Result<Requeue, InstanceError>),
}

impl View for InstanceAction {
    type V = InstanceActionView;

    open spec fn view(&self) -> InstanceActionView {
        match self {
            InstanceAction::EnsureChildren => InstanceActionView::EnsureChildren,
            InstanceAction::GetStatefulSet { name } => InstanceActionView::GetStatefulSet {
                name: name@,
            },
            InstanceAction::EnsureApiKey => InstanceActionView::EnsureApiKey,
            InstanceAction::ListIngresses => InstanceActionView::ListIngresses,
            InstanceAction::SyncPolicy { ingresses } => InstanceActionView::SyncPolicy {
                ingresses: positions(ingresses@),
            },
            InstanceAction::EnsureScim => InstanceActionView::EnsureScim,
            InstanceAction::DeleteScim => InstanceActionView::DeleteScim,
            InstanceAction::Probe => InstanceActionView::Probe,
            InstanceAction::SetStatus(readiness) => InstanceActionView::SetStatus(readiness@),
            InstanceAction::TrySetStatus(readiness) => InstanceActionView::TrySetStatus(
                readiness@,
            ),
            InstanceAction::PublishTransitions => InstanceActionView::PublishTransitions,
            InstanceAction::Done(result) => InstanceActionView::Done(*result),
        }
    }
}

/// The generation of an instance, else zero.
pub open spec fn generation_of(obj: HeadscaleInstance) -> i64 {
    match obj.metadata.generation {
        Some(generation) => generation,
        None => 0,
    }
}

/// A readiness of an instance.
pub open spec fn readiness_of(
    obj: HeadscaleInstance,
    ready: bool,
    reason: Seq<char>,
    message: Seq<char>,
) -> ReadinessView {
    ReadinessView { ready, reason, message, generation: generation_of(obj) }
}

/// A failure goes into the status, as far as that can be written, and is then
/// reported.
pub open spec fn failure_step(
    obj: HeadscaleInstance,
    known: InstanceKnown,
    reason: Seq<char>,
    message: Seq<char>,
    e: InstanceError,
) -> InstanceActionView {
    match known.status {
        None => InstanceActionView::TrySetStatus(readiness_of(obj, false, reason, message)),
        Some(_) => InstanceActionView::Done(Err(e)),
    }
}

/// An outcome goes into the status, changes are published, and the instance is
/// looked at again after a while.
pub open spec fn outcome_step(
    known: InstanceKnown,
    readiness: ReadinessView,
    again_secs: u64,
) -> InstanceActionView {
    match known.status {
        None => InstanceActionView::SetStatus(readiness),
        Some(Err(e)) => InstanceActionView::Done(Err(e)),
        Some(Ok(())) => if known.published {
            InstanceActionView::Done(Ok(Requeue::After(again_secs)))
        } else {
            InstanceActionView::PublishTransitions
        },
    }
}

/// How far the work on a running server is.
pub enum WorkView {
    Next(InstanceActionView),
    Failed(InstanceError),
    Finished,
}

/// The work on a running server: the API key, the policy, and user sync.
pub open spec fn work_of(obj: HeadscaleInstance, known: InstanceKnown) -> WorkView {
    match known.api_key {
        None => WorkView::Next(InstanceActionView::EnsureApiKey),
        Some(Err(e)) => WorkView::Failed(e),
        Some(Ok(())) => if obj.spec.has_scim && obj.spec.policy_has_groups {
            WorkView::Failed(InstanceError::ScimPolicyConflict)
        } else {
            match known.ingresses {
                None => WorkView::Next(InstanceActionView::ListIngresses),
                Some(Err(e)) => WorkView::Failed(InstanceError::Kube(e)),
                Some(Ok(all)) => match known.policy {
                    None => WorkView::Next(
                        InstanceActionView::SyncPolicy {
                            ingresses: contributing(
                                all@,
                                obj.metadata.any_name(),
                                texts_of(obj.spec.watched_namespaces@),
                            ),
                        },
                    ),
                    Some(Err(e)) => WorkView::Failed(e),
                    Some(Ok(())) => match known.scim {
                        None => WorkView::Next(
                            if obj.spec.has_scim {
                                InstanceActionView::EnsureScim
                            } else {
                                InstanceActionView::DeleteScim
                            },
                        ),
                        Some(Err(e)) => WorkView::Failed(e),
                        Some(Ok(())) => WorkView::Finished,
                    },
                },
            }
        },
    }
}

/// How an instance that the operator runs is reconciled.
pub open spec fn managed_step(obj: HeadscaleInstance, known: InstanceKnown) -> InstanceActionView {
    if obj.metadata.namespace is None {
        InstanceActionView::Done(Err(InstanceError::MissingNamespace))
    } else {
        match known.children {
            None => InstanceActionView::EnsureChildren,
            Some(Err(e)) => failure_step(
                obj,
                known,
                "ChildApplyFailed"@,
                "failed to apply child resource: "@ + e.words(),
                e,
            ),
            Some(Ok(())) => match known.ready_replicas {
                None => InstanceActionView::GetStatefulSet {
                    name: "headscale-server-"@ + obj.metadata.any_name(),
                },
                Some(Err(e)) => InstanceActionView::Done(Err(InstanceError::Kube(e))),
                Some(Ok(replicas)) => if replicas is Some && replicas->0 > 0 {
                    match work_of(obj, known) {
                        WorkView::Next(action) => action,
                        WorkView::Failed(e) => failure_step(
                            obj,
                            known,
                            if e is ScimPolicyConflict {
                                "ScimPolicyConflict"@
                            } else {
                                "ReconcileFailed"@
                            },
                            e.words(),
                            e,
                        ),
                        WorkView::Finished => outcome_step(
                            known,
                            readiness_of(
                                obj,
                                true,
                                "StatefulSetReady"@,
                                "headscale StatefulSet is ready"@,
                            ),
                            60,
                        ),
                    }
                } else {
                    outcome_step(
                        known,
                        readiness_of(
                            obj,
                            false,
                            "StatefulSetNotReady"@,
                            "headscale StatefulSet is not yet ready"@,
                        ),
                        10,
                    )
                },
            },
        }
    }
}

/// How an instance that runs outside the cluster is reconciled: it is ready
/// where it answers. Its configuration and its policy are not ours to touch.
pub open spec fn external_step(obj: HeadscaleInstance, known: InstanceKnown) -> InstanceActionView {
    if obj.metadata.namespace is None {
        InstanceActionView::Done(Err(InstanceError::MissingNamespace))
    } else if obj.spec.has_policy || obj.spec.has_scim || obj.spec.has_extra_config {
        failure_step(
            obj,
            known,
            "ExternalSpecConflict"@,
            InstanceError::ExternalSpecConflict.words(),
            InstanceError::ExternalSpecConflict,
        )
    } else {
        match known.probe {
            None => InstanceActionView::Probe,
            Some(Ok(())) => outcome_step(
                known,
                readiness_of(
                    obj,
                    true,
                    "ExternalReachable"@,
                    "external headscale answered an authenticated gRPC call"@,
                ),
                60,
            ),
            Some(Err(problem)) => outcome_step(
                known,
                readiness_of(
                    obj,
                    false,
                    "ExternalUnreachable"@,
                    "external headscale probe failed: "@ + problem@,
                ),
                15,
            ),
        }
    }
}

/// How an instance is reconciled.
pub open spec fn instance_step(obj: HeadscaleInstance, known: InstanceKnown) -> InstanceActionView {
    if obj.spec.external is Some {
        external_step(obj, known)
    } else {
        managed_step(obj, known)
    }
}

fn readiness(obj: &HeadscaleInstance, ready: bool, reason: &'static str, message: String) -> (readiness:
    Readiness)
    ensures
        readiness@ == readiness_of(*obj, ready, reason@, message@),
{
    let generation: i64 = match obj.metadata.generation {
        Some(generation) => generation,
        None => 0,
    };
    Readiness { ready, reason, message, generation }
}

fn failure(
    obj: &HeadscaleInstance,
    known: &InstanceKnown,
    reason: &'static str,
    message: String,
    e: &InstanceError,
) -> (action: InstanceAction)
    ensures
        action@ == failure_step(*obj, *known, reason@, message@, *e),
{
    match &known.status {
        None => InstanceAction::TrySetStatus(readiness(obj, false, reason, message)),
        Some(_) => InstanceAction::Done(Err(e.clone())),
    }
}

fn outcome(known: &InstanceKnown, readiness: Readiness, again_secs: u64) -> (action: InstanceAction)
    ensures
        action@ == outcome_step(*known, readiness@, again_secs),
{
    match &known.status {
        None => InstanceAction::SetStatus(readiness),
        Some(Err(e)) => InstanceAction::Done(Err(e.clone())),
        Some(Ok(())) => if known.published {
            InstanceAction::Done(Ok(Requeue::After(again_secs)))
        } else {
            InstanceAction::PublishTransitions
        },
    }
}

enum Work {
    Next(InstanceAction),
    Failed(InstanceError),
    Finished,
}

fn work(obj: &HeadscaleInstance, known: &InstanceKnown) -> (work: Work)
    ensures
        work_of(*obj, *known) == (match work {
            Work::Next(action) => WorkView::Next(action@),
            Work::Failed(e) => WorkView::Failed(e),
            Work::Finished => WorkView::Finished,
        }),
{
    match &known.api_key {
        None => {
            return Work::Next(InstanceAction::EnsureApiKey);
        },
        Some(Err(e)) => {
            return Work::Failed(e.clone());
        },
        Some(Ok(())) => {},
    }
    if obj.spec.has_scim && obj.spec.policy_has_groups {
        return Work::Failed(InstanceError::ScimPolicyConflict);
    }
    let all = match &known.ingresses {
        None => {
            return Work::Next(InstanceAction::ListIngresses);
        },
        Some(Err(e)) => {
            return Work::Failed(InstanceError::Kube(e.clone()));
        },
        Some(Ok(all)) => all,
    };
    match &known.policy {
        None => {
            let ingresses = list_contributing_ingresses(
                all,
                obj.metadata.name_any().as_str(),
                &obj.spec.watched_namespaces,
            );
            return Work::Next(InstanceAction::SyncPolicy { ingresses });
        },
        Some(Err(e)) => {
            return Work::Failed(e.clone());
        },
        Some(Ok(())) => {},
    }
    match &known.scim {
        None => if obj.spec.has_scim {
            Work::Next(InstanceAction::EnsureScim)
        } else {
            Work::Next(InstanceAction::DeleteScim)
        },
        Some(Err(e)) => Work::Failed(e.clone()),
        Some(Ok(())) => Work::Finished,
    }
}

fn apply_managed(obj: &HeadscaleInstance, known: &InstanceKnown) -> (action: InstanceAction)
    ensures
        action@ == managed_step(*obj, *known),
{
    if obj.metadata.namespace.is_none() {
        return InstanceAction::Done(Err(InstanceError::MissingNamespace));
    }
    match &known.children {
        None => {
            return InstanceAction::EnsureChildren;
        },
        Some(Err(e)) => {
            let message = join2("failed to apply child resource: ", e.message().as_str());
            return failure(obj, known, "ChildApplyFailed", message, e);
        },
        Some(Ok(())) => {},
    }
    let replicas: i32 = match &known.ready_replicas {
        None => {
            let name = join2("headscale-server-", obj.metadata.name_any().as_str());
            return InstanceAction::GetStatefulSet { name };
        },
        Some(Err(e)) => {
            return InstanceAction::Done(Err(InstanceError::Kube(e.clone())));
        },
        Some(Ok(replicas)) => match replicas {
            Some(count) => *count,
            None => 0,
        },
    };
    if replicas <= 0 {
        let not_ready = readiness(
            obj,
            false,
            "StatefulSetNotReady",
            String::from_str("headscale StatefulSet is not yet ready"),
        );
        return outcome(known, not_ready, 10);
    }
    match work(obj, known) {
        Work::Next(action) => action,
        Work::Failed(e) => {
            let reason = match &e {
                InstanceError::ScimPolicyConflict => "ScimPolicyConflict",
                _ => "ReconcileFailed",
            };
            failure(obj, known, reason, e.message(), &e)
        },
        Work::Finished => {
            let ready = readiness(
                obj,
                true,
                "StatefulSetReady",
                String::from_str("headscale StatefulSet is ready"),
            );
            outcome(known, ready, 60)
        },
    }
}

/// Decides the next step of reconciling an instance that runs outside the
/// cluster.
pub fn apply_external(obj: &HeadscaleInstance, known: &InstanceKnown) -> (action: InstanceAction)
    ensures
        action@ == external_step(*obj, *known),
{
    if obj.metadata.namespace.is_none() {
        return InstanceAction::Done(Err(InstanceError::MissingNamespace));
    }
    if obj.spec.has_policy || obj.spec.has_scim || obj.spec.has_extra_config {
        let e = InstanceError::ExternalSpecConflict;
        return failure(obj, known, "ExternalSpecConflict", e.message(), &e);
    }
    match &known.probe {
        None => InstanceAction::Probe,
        Some(Ok(())) => {
            let ready = readiness(
                obj,
                true,
                "ExternalReachable",
                String::from_str("external headscale answered an authenticated gRPC call"),
            );
            outcome(known, ready, 60)
        },
        Some(Err(problem)) => {
            let message = join2("external headscale probe failed: ", problem.as_str());
            outcome(known, readiness(obj, false, "ExternalUnreachable", message), 15)
        },
    }
}

/// Decides the next step of reconciling an instance.
pub fn apply(obj: &HeadscaleInstance, known: &InstanceKnown) -> (action: InstanceAction)
    ensures
        action@ == instance_step(*obj, *known),
{
    if obj.spec.external.is_some() {
        apply_external(obj, known)
    } else {
        apply_managed(obj, known)
    }
}

/// For an instance that runs outside the cluster nothing is ever provisioned
/// and no policy is written: it is only probed, and its status kept.
pub proof fn external_instance_is_only_probed(obj: HeadscaleInstance, known: InstanceKnown)
    requires
        obj.spec.external is Some,
    ensures
        ({
            let action = instance_step(obj, known);
            action is Probe || action is SetStatus || action is TrySetStatus
                || action is PublishTransitions || action is Done
        }),
{
}

/// An instance is called ready only where it is: the server's pod is ready and
/// all work on it succeeded, or an external server answered.
pub proof fn ready_means_ready(
    obj: HeadscaleInstance,
    known: InstanceKnown,
    readiness: ReadinessView,
)
    requires
        instance_step(obj, known) == InstanceActionView::SetStatus(readiness) || instance_step(
            obj,
            known,
        ) == InstanceActionView::TrySetStatus(readiness),
        readiness.ready,
    ensures
        obj.spec.external is Some ==> known.probe is Some && known.probe->0 is Ok,
        obj.spec.external is None ==> work_of(obj, known) is Finished && known.ready_replicas is Some
            && known.ready_replicas->0 is Ok && known.ready_replicas->0->Ok_0 is Some
            && known.ready_replicas->0->Ok_0->0 > 0,
{
}

/// Every failure of the work on a running server is put into the status as not
/// ready before it is reported, so that the status never keeps an old "ready".
pub proof fn failures_reach_the_status_first(
    obj: HeadscaleInstance,
    known: InstanceKnown,
    e: InstanceError,
)
    requires
        obj.spec.external is None,
        obj.metadata.namespace is Some,
        known.children is Some,
        known.children->0 is Ok,
        known.ready_replicas is Some,
        known.ready_replicas->0 is Ok,
        known.ready_replicas->0->Ok_0 is Some,
        known.ready_replicas->0->Ok_0->0 > 0,
        work_of(obj, known) == WorkView::Failed(e),
    ensures
        known.status is None ==> instance_step(obj, known) is TrySetStatus && !instance_step(
            obj,
            known,
        )->TrySetStatus_0.ready,
        known.status is Some ==> instance_step(obj, known) == InstanceActionView::Done(
            Err::<Requeue, InstanceError>(e),
        ),
{
}

/// Nothing is asked for that is known already, so that reconciling an instance
/// comes to an end.
pub proof fn instance_asks_once(obj: HeadscaleInstance, known: InstanceKnown)
    ensures
        ({
            let action = instance_step(obj, known);
            &&& action is EnsureChildren ==> known.children is None
            &&& action is GetStatefulSet ==> known.ready_replicas is None
            &&& action is EnsureApiKey ==> known.api_key is None
            &&& action is ListIngresses ==> known.ingresses is None
            &&& action is SyncPolicy ==> known.policy is None
            &&& action is EnsureScim || action is DeleteScim ==> known.scim is None
            &&& action is Probe ==> known.probe is None
            &&& action is SetStatus || action is TrySetStatus ==> known.status is None
            &&& action is PublishTransitions ==> !known.published
        }),
{
}

/// The namespace in which an instance is guarded by our finalizer.
pub fn reconcile(obj: &HeadscaleInstance) -> (ns: Result<String, InstanceError>)
    ensures
        match obj.metadata.namespace {
            Some(own) => ns == Ok::<String, InstanceError>(own),
            None => ns == Err::<String, InstanceError>(InstanceError::MissingNamespace),
        },
{
    match &obj.metadata.namespace {
        Some(ns) => Ok(ns.clone()),
        None => Err(InstanceError::MissingNamespace),
    }
}

// ---- cleaning up ----

/// What is known while a deleted instance is cleaned up.
#[derive(Debug)]
pub struct InstanceCleanupKnown {
    /// All Ingresses of the cluster.
    pub ingresses: Option<Result<Vec<Ingress>, KubeError>>,
    /// Whether the Ingresses of the instance were told.
    pub orphaned: bool,
    /// Whether the volume claim of the server was deleted.
    pub server_claim: Option<Result<(), InstanceError>>,
    /// Whether the volume claim of user sync was deleted.
    pub scim_claim: Option<Result<(), InstanceError>>,
}

impl InstanceCleanupKnown {
    /// Nothing is known.
    pub fn nothing() -> (known: Self)
        ensures
            known == (InstanceCleanupKnown {
                ingresses: None,
                orphaned: false,
                server_claim: None,
                scim_claim: None,
            }),
    {
        InstanceCleanupKnown {
            ingresses: None,
            orphaned: false,
            server_claim: None,
            scim_claim: None,
        }
    }
}

/// What cleaning up an instance asks for.
#[derive(Debug)]
pub enum InstanceCleanupAction {
    ListIngresses,
    /// Warn the Ingresses at these positions and take their addresses back.
    Orphan { ingresses: Vec<usize> },
    DeleteVolumeClaim { name: String },
    Done(Result<Requeue, InstanceError>),
}

/// What an action of cleaning up an instance says.
pub enum InstanceCleanupActionView {
    ListIngresses,
    Orphan { ingresses: Seq<int> },
    DeleteVolumeClaim { name: Seq<char> },
    Done(Result<Requeue, InstanceError>),
}

impl View for InstanceCleanupAction {
    type V = InstanceCleanupActionView;

    open spec fn view(&self) -> InstanceCleanupActionView {
        match self {
            InstanceCleanupAction::ListIngresses => InstanceCleanupActionView::ListIngresses,
            InstanceCleanupAction::Orphan { ingresses } => InstanceCleanupActionView::Orphan {
                ingresses: positions(ingresses@),
            },
            InstanceCleanupAction::DeleteVolumeClaim { name } =>
                InstanceCleanupActionView::DeleteVolumeClaim { name: name@ },
            InstanceCleanupAction::Done(result) => InstanceCleanupActionView::Done(*result),
        }
    }
}

/// How a deleted instance is cleaned up: the Ingresses that refer to it are
/// told, in whichever namespace they are, and the volume claims, which nothing
/// else deletes, are deleted.
pub open spec fn instance_cleanup_step(obj: HeadscaleInstance, known: InstanceCleanupKnown) -> StepView<
    InstanceCleanupActionView,
> {
    let name = obj.metadata.any_name();
    match known.ingresses {
        None => quietly(InstanceCleanupActionView::ListIngresses),
        Some(Err(e)) => quietly(InstanceCleanupActionView::Done(Err(InstanceError::Kube(e)))),
        Some(Ok(all)) => {
            let referring = contributing(all@, name, seq!["*"@]);
            if referring.len() > 0 && !known.orphaned {
                quietly(InstanceCleanupActionView::Orphan { ingresses: referring })
            } else if obj.metadata.namespace is None {
                quietly(InstanceCleanupActionView::Done(Err(InstanceError::MissingNamespace)))
            } else {
                match known.server_claim {
                    None => quietly(
                        InstanceCleanupActionView::DeleteVolumeClaim {
                            name: "data-headscale-server-"@ + name + "-0"@,
                        },
                    ),
                    Some(Err(e)) => quietly(InstanceCleanupActionView::Done(Err(e))),
                    Some(Ok(())) => match known.scim_claim {
                        None => quietly(
                            InstanceCleanupActionView::DeleteVolumeClaim {
                                name: "data-headscale-scim-"@ + name + "-0"@,
                            },
                        ),
                        Some(Err(e)) => quietly(InstanceCleanupActionView::Done(Err(e))),
                        Some(Ok(())) => noting(
                            NoticeView::Deleted,
                            InstanceCleanupActionView::Done(Ok(Requeue::AwaitChange)),
                        ),
                    },
                }
            }
        },
    }
}

/// Decides the next step of cleaning up a deleted instance.
pub fn cleanup(obj: &HeadscaleInstance, known: &InstanceCleanupKnown) -> (step: Step<
    InstanceCleanupAction,
>)
    ensures
        step@ == instance_cleanup_step(*obj, *known),
{
    let name = obj.metadata.name_any();
    let all = match &known.ingresses {
        None => {
            return Step::quiet(InstanceCleanupAction::ListIngresses);
        },
        Some(Err(e)) => {
            return Step::quiet(InstanceCleanupAction::Done(Err(InstanceError::Kube(e.clone()))));
        },
        Some(Ok(all)) => all,
    };
    let mut everywhere: Vec<String> = Vec::new();
    everywhere.push(String::from_str("*"));
    proof {
        assert(texts_of(everywhere@) =~= seq!["*"@]);
    }
    let ingresses = list_contributing_ingresses(all, name.as_str(), &everywhere);
    if ingresses.len() > 0 && !known.orphaned {
        return Step::quiet(InstanceCleanupAction::Orphan { ingresses });
    }
    if obj.metadata.namespace.is_none() {
        return Step::quiet(InstanceCleanupAction::Done(Err(InstanceError::MissingNamespace)));
    }
    match &known.server_claim {
        None => {
            let claim = join3("data-headscale-server-", name.as_str(), "-0");
            return Step::quiet(InstanceCleanupAction::DeleteVolumeClaim { name: claim });
        },
        Some(Err(e)) => {
            return Step::quiet(InstanceCleanupAction::Done(Err(e.clone())));
        },
        Some(Ok(())) => {},
    }
    match &known.scim_claim {
        None => {
            let claim = join3("data-headscale-scim-", name.as_str(), "-0");
            Step::quiet(InstanceCleanupAction::DeleteVolumeClaim { name: claim })
        },
        Some(Err(e)) => Step::quiet(InstanceCleanupAction::Done(Err(e.clone()))),
        Some(Ok(())) => Step::noted(
            Notice::Deleted,
            InstanceCleanupAction::Done(Ok(Requeue::AwaitChange)),
        ),
    }
}

/// A deleted instance is gone only after every Ingress that refers to it was
/// told and both volume claims were deleted.
pub proof fn cleanup_is_complete(obj: HeadscaleInstance, known: InstanceCleanupKnown)
    requires
        instance_cleanup_step(obj, known).action == InstanceCleanupActionView::Done(
            Ok::<Requeue, InstanceError>(Requeue::AwaitChange),
        ),
    ensures
        known.ingresses is Some,
        known.ingresses->0 is Ok,
        contributing(known.ingresses->0->Ok_0@, obj.metadata.any_name(), seq!["*"@]).len() > 0
            ==> known.orphaned,
        known.server_claim is Some && known.server_claim->0 is Ok,
        known.scim_claim is Some && known.scim_claim->0 is Ok,
{
}

/// The warning on an Ingress whose instance was deleted.
pub fn orphan_warning(instance_name: &str) -> (notice: Warning)
    ensures
        notice@ == warning(
            "InstanceDeleted"@,
            "HeadscaleInstance '"@ + instance_name@
                + "' was deleted; this Ingress is now orphaned and will stop functioning"@,
        ),
{
    Warning {
        reason: "InstanceDeleted",
        message: join3(
            "HeadscaleInstance '",
            instance_name,
            "' was deleted; this Ingress is now orphaned and will stop functioning",
        ),
    }
}

// ---- children ----

/// Whether `port` is a TCP port that targets the container port of its name.
pub open spec fn is_named_tcp_port(port: ServicePort, name: Seq<char>, number: i32) -> bool {
    &&& text_of(port.name) == Some(name)
    &&& port.port == number
    &&& text_of(port.protocol) == Some("TCP"@)
    &&& port.target_port is Some
    &&& port.target_port->0 is String
    &&& port.target_port->0->String_0@ == name
    &&& port.node_port is None
}

fn named_tcp_port(name: &str, number: i32) -> (port: ServicePort)
    ensures
        is_named_tcp_port(port, name@, number),
{
    ServicePort {
        name: Some(String::from_str(name)),
        port: number,
        protocol: Some(String::from_str("TCP")),
        target_port: Some(IntOrString::String(String::from_str(name))),
        node_port: None,
    }
}

/// Whether `svc` is the Service of an instance's server, with its three ports.
pub open spec fn is_server_service(
    svc: Service,
    instance_name: Seq<char>,
    http: i32,
    metrics: i32,
    grpc: i32,
) -> bool {
    &&& svc.metadata.is_named("headscale-server-"@ + instance_name)
    &&& svc.spec is Some
    &&& svc.spec->0.type_ is None
    &&& svc.spec->0.external_name is None
    &&& svc.spec->0.cluster_ip is None
    &&& svc.spec->0.external_traffic_policy is None
    &&& svc.spec->0.ports is Some
    &&& svc.spec->0.ports->0@.len() == 3
    &&& is_named_tcp_port(svc.spec->0.ports->0@[0], "http"@, http)
    &&& is_named_tcp_port(svc.spec->0.ports->0@[1], "metrics"@, metrics)
    &&& is_named_tcp_port(svc.spec->0.ports->0@[2], "grpc"@, grpc)
}

/// Builds the Service of an instance's server.
pub fn headscale_service(instance_name: &str, http: i32, metrics: i32, grpc: i32) -> (svc: Service)
    ensures
        is_server_service(svc, instance_name@, http, metrics, grpc),
{
    let mut ports: Vec<ServicePort> = Vec::new();
    ports.push(named_tcp_port("http", http));
    ports.push(named_tcp_port("metrics", metrics));
    ports.push(named_tcp_port("grpc", grpc));
    let name = join2("headscale-server-", instance_name);
    Service {
        metadata: ObjectMeta::named(name.as_str()),
        spec: Some(
            ServiceSpec {
                type_: None,
                external_name: None,
                cluster_ip: None,
                external_traffic_policy: None,
                ports: Some(ports),
            },
        ),
    }
}

} // verus!
