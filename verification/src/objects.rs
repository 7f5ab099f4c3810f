//! The parts of Kubernetes objects that the operator reads and writes.

use crate::textmap::TextMap;
use vstd::prelude::*;
use vstd::string::*;

verus! {

// ---- texts in objects ----

/// What an optional text stands for.
pub open spec fn text_of(text: Option<String>) -> Option<Seq<char>> {
    match text {
        Some(text) => Some(text@),
        None => None,
    }
}

/// What a list of texts stands for.
pub open spec fn texts_of(texts: Seq<String>) -> Seq<Seq<char>> {
    texts.map_values(|text: String| text@)
}

// ---- metadata ----

/// Metadata of an object. Times are seconds since the Unix epoch.
#[derive(Debug, PartialEq, Eq, Default)]
pub struct ObjectMeta {
    pub name: Option<String>,
    pub generate_name: Option<String>,
    pub namespace: Option<String>,
    pub uid: Option<String>,
    pub resource_version: Option<String>,
    pub generation: Option<i64>,
    pub annotations: Option<TextMap<String>>,
    pub labels: Option<TextMap<String>>,
    pub finalizers: Option<Vec<String>>,
    pub creation_timestamp: Option<i64>,
    pub deletion_timestamp: Option<i64>,
}

/// The entries of an optional map, none where there is no map.
pub open spec fn map_of<V>(map: Option<TextMap<V>>) -> Map<Seq<char>, V> {
    match map {
        Some(map) => map@,
        None => Map::empty(),
    }
}

impl ObjectMeta {
    /// The name, else the name prefix, else nothing.
    pub open spec fn any_name(&self) -> Seq<char> {
        match self.name {
            Some(name) => name@,
            None => match self.generate_name {
                Some(prefix) => prefix@,
                None => Seq::empty(),
            },
        }
    }

    /// The namespace, else nothing.
    pub open spec fn own_namespace(&self) -> Seq<char> {
        match self.namespace {
            Some(ns) => ns@,
            None => Seq::empty(),
        }
    }

    /// The value of an annotation.
    pub open spec fn annotation_of(&self, key: Seq<char>) -> Option<Seq<char>> {
        if map_of(self.annotations).contains_key(key) {
            Some(map_of(self.annotations)[key]@)
        } else {
            None
        }
    }

    /// The value of a label.
    pub open spec fn label_of(&self, key: Seq<char>) -> Option<Seq<char>> {
        if map_of(self.labels).contains_key(key) {
            Some(map_of(self.labels)[key]@)
        } else {
            None
        }
    }

    /// The finalizers.
    pub open spec fn finalizers_of(&self) -> Seq<Seq<char>> {
        match self.finalizers {
            Some(finalizers) => texts_of(finalizers@),
            None => Seq::empty(),
        }
    }

    /// Metadata with a name and nothing else.
    pub open spec fn is_named(&self, name: Seq<char>) -> bool {
        &&& text_of(self.name) == Some(name)
        &&& self.has_only_name_and_namespace()
        &&& self.namespace is None
    }

    /// Metadata without anything but a name and a namespace.
    pub open spec fn has_only_name_and_namespace(&self) -> bool {
        &&& self.generate_name is None
        &&& self.uid is None
        &&& self.resource_version is None
        &&& self.generation is None
        &&& self.annotations is None
        &&& self.labels is None
        &&& self.finalizers is None
        &&& self.creation_timestamp is None
        &&& self.deletion_timestamp is None
    }

    /// Metadata with a name.
    pub fn named(name: &str) -> (meta: Self)
        ensures
            meta.is_named(name@),
    {
        ObjectMeta {
            name: Some(String::from_str(name)),
            generate_name: None,
            namespace: None,
            uid: None,
            resource_version: None,
            generation: None,
            annotations: None,
            labels: None,
            finalizers: None,
            creation_timestamp: None,
            deletion_timestamp: None,
        }
    }

    /// The name, else the name prefix, else an empty text.
    pub fn name_any(&self) -> (name: String)
        ensures
            name@ == self.any_name(),
    {
        match &self.name {
            Some(name) => name.clone(),
            None => match &self.generate_name {
                Some(prefix) => prefix.clone(),
                None => String::new(),
            },
        }
    }

    /// The namespace, else an empty text.
    pub fn namespace_or_default(&self) -> (ns: String)
        ensures
            ns@ == self.own_namespace(),
    {
        match &self.namespace {
            Some(ns) => ns.clone(),
            None => String::new(),
        }
    }

    /// The value of an annotation.
    pub fn annotation(&self, key: &str) -> (value: Option<&String>)
        ensures
            match value {
                Some(found) => self.annotation_of(key@) == Some(found@),
                None => self.annotation_of(key@) is None,
            },
    {
        match &self.annotations {
            Some(map) => map.get(key),
            None => None,
        }
    }

    /// The value of a label.
    pub fn label(&self, key: &str) -> (value: Option<&String>)
        ensures
            match value {
                Some(found) => self.label_of(key@) == Some(found@),
                None => self.label_of(key@) is None,
            },
    {
        match &self.labels {
            Some(map) => map.get(key),
            None => None,
        }
    }

    /// Whether `finalizer` is among the finalizers.
    pub fn has_finalizer(&self, finalizer: &str) -> (found: bool)
        ensures
            found == self.finalizers_of().contains(finalizer@),
    {
        match &self.finalizers {
            None => false,
            Some(list) => {
                let mut i: usize = 0;
                while i < list.len()
                    invariant
                        i <= list@.len(),
                        self.finalizers_of() == texts_of(list@),
                        forall|k: int| 0 <= k < i ==> texts_of(list@)[k] != finalizer@,
                    decreases list@.len() - i,
                {
                    if crate::text::same_text(list[i].as_str(), finalizer) {
                        proof {
                            assert(texts_of(list@)[i as int] == finalizer@);
                        }
                        return true;
                    }
                    i = i + 1;
                }
                false
            },
        }
    }
}

/// Objects with metadata.
pub trait Resource {
    /// The metadata of the object.
    spec fn meta_of(&self) -> ObjectMeta;

    fn meta(&self) -> (meta: &ObjectMeta)
        ensures
            *meta == self.meta_of(),
    ;
}

// ---- Services ----

#[derive(Debug, PartialEq, Eq, Default)]
pub struct Service {
    pub metadata: ObjectMeta,
    pub spec: Option<ServiceSpec>,
}

#[derive(Debug, PartialEq, Eq, Default)]
pub struct ServiceSpec {
    pub type_: Option<String>,
    pub external_name: Option<String>,
    pub cluster_ip: Option<String>,
    pub external_traffic_policy: Option<String>,
    pub ports: Option<Vec<ServicePort>>,
}

#[derive(Debug, PartialEq, Eq, Default)]
pub struct ServicePort {
    pub name: Option<String>,
    pub port: i32,
    pub protocol: Option<String>,
    pub target_port: Option<IntOrString>,
    pub node_port: Option<i32>,
}

/// A port, by number or by name.
#[derive(Debug, PartialEq, Eq)]
pub enum IntOrString {
    Int(i32),
    String(String),
}

impl Resource for Service {
    open spec fn meta_of(&self) -> ObjectMeta {
        self.metadata
    }

    fn meta(&self) -> (meta: &ObjectMeta) {
        &self.metadata
    }
}

/// The ports of a Service.
pub open spec fn ports_of(svc: Service) -> Seq<ServicePort> {
    match svc.spec {
        Some(spec) => match spec.ports {
            Some(ports) => ports@,
            None => Seq::empty(),
        },
        None => Seq::empty(),
    }
}

// ---- Ingresses ----

#[derive(Debug, PartialEq, Eq, Default)]
pub struct Ingress {
    pub metadata: ObjectMeta,
    pub spec: Option<IngressSpec>,
}

#[derive(Debug, PartialEq, Eq, Default)]
pub struct IngressSpec {
    pub ingress_class_name: Option<String>,
    pub rules: Option<Vec<IngressRule>>,
}

#[derive(Debug, PartialEq, Eq, Default)]
pub struct IngressRule {
    pub host: Option<String>,
    pub http: Option<HTTPIngressRuleValue>,
}

#[derive(Debug, PartialEq, Eq, Default)]
pub struct HTTPIngressRuleValue {
    pub paths: Vec<HTTPIngressPath>,
}

#[derive(Debug, PartialEq, Eq, Default)]
pub struct HTTPIngressPath {
    pub path: Option<String>,
    pub path_type: String,
    pub backend: IngressBackend,
}

#[derive(Debug, PartialEq, Eq, Default)]
pub struct IngressBackend {
    pub service: Option<IngressServiceBackend>,
}

#[derive(Debug, PartialEq, Eq, Default)]
pub struct IngressServiceBackend {
    pub name: String,
    pub port: Option<ServiceBackendPort>,
}

#[derive(Debug, PartialEq, Eq, Default)]
pub struct ServiceBackendPort {
    pub name: Option<String>,
    pub number: Option<i32>,
}

impl Resource for Ingress {
    open spec fn meta_of(&self) -> ObjectMeta {
        self.metadata
    }

    fn meta(&self) -> (meta: &ObjectMeta) {
        &self.metadata
    }
}

// ---- Secrets and ConfigMaps ----

#[derive(Debug, PartialEq, Eq, Default)]
pub struct Secret {
    pub metadata: ObjectMeta,
    pub data: Option<TextMap<Vec<u8>>>,
}

#[derive(Debug, PartialEq, Eq, Default)]
pub struct ConfigMap {
    pub metadata: ObjectMeta,
    pub data: Option<TextMap<String>>,
}

impl Secret {
    /// The bytes under a key.
    pub open spec fn bytes_of(&self, key: Seq<char>) -> Option<Seq<u8>> {
        if map_of(self.data).contains_key(key) {
            Some(map_of(self.data)[key]@)
        } else {
            None
        }
    }

    /// The bytes under a key.
    pub fn item(&self, key: &str) -> (bytes: Option<&Vec<u8>>)
        ensures
            match bytes {
                Some(found) => self.bytes_of(key@) == Some(found@),
                None => self.bytes_of(key@) is None,
            },
    {
        match &self.data {
            Some(map) => map.get(key),
            None => None,
        }
    }
}

} // verus!
