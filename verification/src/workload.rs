//! The parts of pods, network policies and RBAC objects that the operator
//! writes.

use crate::objects::{map_of, text_of, texts_of, ObjectMeta};
use crate::textmap::TextMap;
use vstd::prelude::*;
use vstd::string::*;

verus! {

// ---- StatefulSets and pods ----

#[derive(Debug, PartialEq, Eq, Default)]
pub struct StatefulSet {
    pub metadata: ObjectMeta,
    pub spec: Option<StatefulSetSpec>,
}

#[derive(Debug, PartialEq, Eq, Default)]
pub struct StatefulSetSpec {
    pub replicas: Option<i32>,
    pub service_name: Option<String>,
    pub template: PodTemplateSpec,
}

#[derive(Debug, PartialEq, Eq, Default)]
pub struct PodTemplateSpec {
    pub spec: Option<PodSpec>,
}

#[derive(Debug, PartialEq, Eq, Default)]
pub struct PodSpec {
    pub containers: Vec<Container>,
    pub host_network: Option<bool>,
    pub dns_policy: Option<String>,
    pub security_context: Option<PodSecurityContext>,
    pub service_account_name: Option<String>,
    pub volumes: Option<Vec<Volume>>,
}

#[derive(Debug, PartialEq, Eq, Default)]
pub struct PodSecurityContext {
    pub seccomp_profile: Option<SeccompProfile>,
}

#[derive(Debug, PartialEq, Eq, Default)]
pub struct SeccompProfile {
    pub type_: String,
    pub localhost_profile: Option<String>,
}

#[derive(Debug, PartialEq, Eq, Default)]
pub struct Container {
    pub name: String,
    pub image: Option<String>,
    pub args: Option<Vec<String>>,
    pub env: Option<Vec<EnvVar>>,
    pub security_context: Option<SecurityContext>,
    pub volume_mounts: Option<Vec<VolumeMount>>,
}

#[derive(Debug, PartialEq, Eq, Default)]
pub struct SecurityContext {
    pub allow_privilege_escalation: Option<bool>,
    /// Capabilities that are taken from the container.
    pub drop_capabilities: Option<Vec<String>>,
    /// Capabilities that are given to the container.
    pub add_capabilities: Option<Vec<String>>,
}

#[derive(Debug, PartialEq, Eq, Default)]
pub struct VolumeMount {
    pub name: String,
    pub mount_path: String,
    pub read_only: Option<bool>,
}

// ---- environment variables ----

#[derive(Debug, PartialEq, Eq, Default)]
pub struct EnvVar {
    pub name: String,
    pub value: Option<String>,
    /// Secret and key that the value is taken from.
    pub secret_key_ref: Option<SecretKeySelector>,
    /// Field of the pod that the value is taken from.
    pub field_ref: Option<String>,
}

#[derive(Debug, PartialEq, Eq, Default)]
pub struct SecretKeySelector {
    pub name: String,
    pub key: String,
}

/// What an environment variable says.
pub struct EnvVarView {
    pub name: Seq<char>,
    pub value: Option<Seq<char>>,
    pub secret_key_ref: Option<(Seq<char>, Seq<char>)>,
    pub field_ref: Option<Seq<char>>,
}

impl View for EnvVar {
    type V = EnvVarView;

    open spec fn view(&self) -> EnvVarView {
        EnvVarView {
            name: self.name@,
            value: text_of(self.value),
            secret_key_ref: match self.secret_key_ref {
                Some(selector) => Some((selector.name@, selector.key@)),
                None => None,
            },
            field_ref: text_of(self.field_ref),
        }
    }
}

/// A variable with a fixed value.
pub open spec fn env_value(name: Seq<char>, value: Seq<char>) -> EnvVarView {
    EnvVarView { name, value: Some(value), secret_key_ref: None, field_ref: None }
}

/// A variable with the value of a key of a Secret.
pub open spec fn env_secret(name: Seq<char>, secret: Seq<char>, key: Seq<char>) -> EnvVarView {
    EnvVarView { name, value: None, secret_key_ref: Some((secret, key)), field_ref: None }
}

/// A variable with the value of a field of the pod.
pub open spec fn env_field(name: Seq<char>, path: Seq<char>) -> EnvVarView {
    EnvVarView { name, value: None, secret_key_ref: None, field_ref: Some(path) }
}

impl EnvVar {
    /// A variable with a fixed value.
    pub fn with_value(name: &str, value: &str) -> (env: Self)
        ensures
            env@ == env_value(name@, value@),
    {
        EnvVar {
            name: String::from_str(name),
            value: Some(String::from_str(value)),
            secret_key_ref: None,
            field_ref: None,
        }
    }

    /// A variable with the value of a key of a Secret.
    pub fn from_secret(name: &str, secret: &str, key: &str) -> (env: Self)
        ensures
            env@ == env_secret(name@, secret@, key@),
    {
        EnvVar {
            name: String::from_str(name),
            value: None,
            secret_key_ref: Some(
                SecretKeySelector { name: String::from_str(secret), key: String::from_str(key) },
            ),
            field_ref: None,
        }
    }

    /// A variable with the value of a field of the pod.
    pub fn from_field(name: &str, path: &str) -> (env: Self)
        ensures
            env@ == env_field(name@, path@),
    {
        EnvVar {
            name: String::from_str(name),
            value: None,
            secret_key_ref: None,
            field_ref: Some(String::from_str(path)),
        }
    }
}

// ---- volumes ----

#[derive(Debug, PartialEq, Eq, Default)]
pub struct Volume {
    pub name: String,
    pub config_map: Option<ConfigMapVolumeSource>,
    pub empty_dir: Option<EmptyDirVolumeSource>,
    pub host_path: Option<HostPathVolumeSource>,
}

#[derive(Debug, PartialEq, Eq, Default)]
pub struct ConfigMapVolumeSource {
    pub name: String,
}

#[derive(Debug, PartialEq, Eq, Default)]
pub struct EmptyDirVolumeSource {
    pub medium: Option<String>,
}

#[derive(Debug, PartialEq, Eq, Default)]
pub struct HostPathVolumeSource {
    pub path: String,
    pub type_: Option<String>,
}

/// What a volume holds.
pub enum VolumeView {
    ConfigMap { name: Seq<char>, config_map: Seq<char> },
    EmptyDir { name: Seq<char> },
    HostPath { name: Seq<char>, path: Seq<char>, type_: Seq<char> },
}

/// Volumes by what they hold.
pub trait VolumeExt: Sized {
    /// The volume holds this, and nothing else.
    spec fn holds(&self, what: VolumeView) -> bool;

    /// A volume with the contents of a ConfigMap.
    fn configmap(name: &str, configmap: ConfigMapVolumeSource) -> (volume: Self)
        ensures
            volume.holds(VolumeView::ConfigMap { name: name@, config_map: configmap.name@ }),
    ;

    /// A volume that starts out empty.
    fn emptydir(name: &str) -> (volume: Self)
        ensures
            volume.holds(VolumeView::EmptyDir { name: name@ }),
    ;

    /// A path of the host.
    fn hostpath(name: &str, path: &str, type_: &str) -> (volume: Self)
        ensures
            volume.holds(VolumeView::HostPath { name: name@, path: path@, type_: type_@ }),
    ;
}

impl VolumeExt for Volume {
    open spec fn holds(&self, what: VolumeView) -> bool {
        match what {
            VolumeView::ConfigMap { name, config_map } => {
                &&& self.name@ == name
                &&& self.config_map is Some
                &&& self.config_map->0.name@ == config_map
                &&& self.empty_dir is None
                &&& self.host_path is None
            },
            VolumeView::EmptyDir { name } => {
                &&& self.name@ == name
                &&& self.config_map is None
                &&& self.empty_dir is Some
                &&& self.empty_dir->0.medium is None
                &&& self.host_path is None
            },
            VolumeView::HostPath { name, path, type_ } => {
                &&& self.name@ == name
                &&& self.config_map is None
                &&& self.empty_dir is None
                &&& self.host_path is Some
                &&& self.host_path->0.path@ == path
                &&& text_of(self.host_path->0.type_) == Some(type_)
            },
        }
    }

    fn configmap(name: &str, configmap: ConfigMapVolumeSource) -> (volume: Self) {
        Volume {
            name: String::from_str(name),
            config_map: Some(configmap),
            empty_dir: None,
            host_path: None,
        }
    }

    fn emptydir(name: &str) -> (volume: Self) {
        Volume {
            name: String::from_str(name),
            config_map: None,
            empty_dir: Some(EmptyDirVolumeSource { medium: None }),
            host_path: None,
        }
    }

    fn hostpath(name: &str, path: &str, type_: &str) -> (volume: Self) {
        Volume {
            name: String::from_str(name),
            config_map: None,
            empty_dir: None,
            host_path: Some(
                HostPathVolumeSource {
                    path: String::from_str(path),
                    type_: Some(String::from_str(type_)),
                },
            ),
        }
    }
}

// ---- network policies ----

#[derive(Debug, PartialEq, Eq, Default)]
pub struct NetworkPolicy {
    pub metadata: ObjectMeta,
    pub spec: Option<NetworkPolicySpec>,
}

#[derive(Debug, PartialEq, Eq, Default)]
pub struct NetworkPolicySpec {
    /// Pods that the policy guards.
    pub pod_selector: LabelSelector,
    pub policy_types: Option<Vec<String>>,
    /// Who may reach the pods, by rule.
    pub ingress: Option<Vec<NetworkPolicyIngressRule>>,
}

#[derive(Debug, PartialEq, Eq, Default)]
pub struct NetworkPolicyIngressRule {
    pub from: Option<Vec<NetworkPolicyPeer>>,
}

/// Pods of the selected namespaces, as far as they are selected themselves.
#[derive(Debug, PartialEq, Eq, Default)]
pub struct NetworkPolicyPeer {
    pub namespace_selector: LabelSelector,
    pub pod_selector: LabelSelector,
}

/// Labels that an object must have. Without any, every object is selected.
#[derive(Debug, PartialEq, Eq, Default)]
pub struct LabelSelector {
    pub match_labels: Option<TextMap<String>>,
}

/// The texts of an optional map, by key.
pub open spec fn labels_of(labels: Option<TextMap<String>>) -> Map<Seq<char>, Seq<char>> {
    map_of(labels).map_values(|value: String| value@)
}

impl View for LabelSelector {
    type V = Map<Seq<char>, Seq<char>>;

    open spec fn view(&self) -> Map<Seq<char>, Seq<char>> {
        labels_of(self.match_labels)
    }
}

/// Whether an object with `labels` is selected.
pub open spec fn selects(
    selector: Map<Seq<char>, Seq<char>>,
    labels: Map<Seq<char>, Seq<char>>,
) -> bool {
    forall|key: Seq<char>| #[trigger]
        selector.contains_key(key) ==> labels.contains_key(key) && labels[key] == selector[key]
}

/// Whom a peer lets through: labels of namespaces and labels of pods.
pub struct PeerView {
    pub namespaces: Map<Seq<char>, Seq<char>>,
    pub pods: Map<Seq<char>, Seq<char>>,
}

impl View for NetworkPolicyPeer {
    type V = PeerView;

    open spec fn view(&self) -> PeerView {
        PeerView { namespaces: self.namespace_selector@, pods: self.pod_selector@ }
    }
}

/// Whether a peer lets a pod through, by the labels of its namespace and its
/// own.
pub open spec fn lets_through(
    peer: PeerView,
    namespace: Map<Seq<char>, Seq<char>>,
    pod: Map<Seq<char>, Seq<char>>,
) -> bool {
    selects(peer.namespaces, namespace) && selects(peer.pods, pod)
}

// ---- RBAC ----

#[derive(Debug, PartialEq, Eq, Default)]
pub struct ServiceAccount {
    pub metadata: ObjectMeta,
}

#[derive(Debug, PartialEq, Eq, Default)]
pub struct Role {
    pub metadata: ObjectMeta,
    pub rules: Option<Vec<PolicyRule>>,
}

#[derive(Debug, PartialEq, Eq, Default)]
pub struct PolicyRule {
    pub api_groups: Option<Vec<String>>,
    pub resources: Option<Vec<String>>,
    pub resource_names: Option<Vec<String>>,
    pub verbs: Vec<String>,
}

/// What a rule allows.
pub struct PolicyRuleView {
    pub api_groups: Option<Seq<Seq<char>>>,
    pub resources: Option<Seq<Seq<char>>>,
    pub resource_names: Option<Seq<Seq<char>>>,
    pub verbs: Seq<Seq<char>>,
}

/// What an optional list of texts stands for.
pub open spec fn list_of(texts: Option<Vec<String>>) -> Option<Seq<Seq<char>>> {
    match texts {
        Some(texts) => Some(texts_of(texts@)),
        None => None,
    }
}

impl View for PolicyRule {
    type V = PolicyRuleView;

    open spec fn view(&self) -> PolicyRuleView {
        PolicyRuleView {
            api_groups: list_of(self.api_groups),
            resources: list_of(self.resources),
            resource_names: list_of(self.resource_names),
            verbs: texts_of(self.verbs@),
        }
    }
}

#[derive(Debug, PartialEq, Eq, Default)]
pub struct RoleBinding {
    pub metadata: ObjectMeta,
    pub role_ref: RoleRef,
    pub subjects: Option<Vec<Subject>>,
}

#[derive(Debug, PartialEq, Eq, Default)]
pub struct RoleRef {
    pub api_group: String,
    pub kind: String,
    pub name: String,
}

#[derive(Debug, PartialEq, Eq, Default)]
pub struct Subject {
    pub kind: String,
    pub name: String,
    pub namespace: Option<String>,
}

} // verus!
