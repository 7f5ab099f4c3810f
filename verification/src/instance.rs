//! The parts of a HeadscaleInstance that proxies depend on.

use crate::objects::{texts_of, ObjectMeta, Resource};
use crate::text::same_text;
use vstd::prelude::*;

verus! {

/// A headscale server that runs outside the cluster.
#[derive(Debug, PartialEq, Eq, Default)]
pub struct ExternalSpec {
    pub grpc_endpoint: String,
    pub api_key_secret_ref: String,
}

#[derive(Debug, PartialEq, Eq, Default)]
pub struct HeadscaleInstanceSpec {
    pub server_url: String,
    pub dns_base_domain: String,
    /// Namespaces whose objects may use the instance; `*` stands for all.
    pub watched_namespaces: Vec<String>,
    pub external: Option<ExternalSpec>,
    /// Whether a policy is configured.
    pub has_policy: bool,
    /// Whether the configured policy declares groups with members.
    pub policy_has_groups: bool,
    /// Whether user sync is configured.
    pub has_scim: bool,
    /// Whether extra headscale configuration is given.
    pub has_extra_config: bool,
}

#[derive(Debug, PartialEq, Eq, Default)]
pub struct HeadscaleInstance {
    pub metadata: ObjectMeta,
    pub spec: HeadscaleInstanceSpec,
    /// Whether the status says that the instance is ready; no status, no value.
    pub ready: Option<bool>,
}

impl Resource for HeadscaleInstance {
    open spec fn meta_of(&self) -> ObjectMeta {
        self.metadata
    }

    fn meta(&self) -> (meta: &ObjectMeta) {
        &self.metadata
    }
}

/// Whether a list of namespaces covers `ns`: it holds it, or `*`.
pub open spec fn covers(watched: Seq<Seq<char>>, ns: Seq<char>) -> bool {
    watched.contains("*"@) || watched.contains(ns)
}

/// Whether a list of namespaces covers `ns`.
pub fn namespace_covered(watched: &Vec<String>, ns: &str) -> (covered: bool)
    ensures
        covered == covers(texts_of(watched@), ns@),
{
    let mut i: usize = 0;
    while i < watched.len()
        invariant
            i <= watched@.len(),
            forall|k: int|
                0 <= k < i ==> #[trigger] texts_of(watched@)[k] != "*"@ && texts_of(watched@)[k]
                    != ns@,
        decreases watched@.len() - i,
    {
        let entry = watched[i].as_str();
        if same_text(entry, "*") || same_text(entry, ns) {
            proof {
                assert(texts_of(watched@)[i as int] == entry@);
            }
            return true;
        }
        i = i + 1;
    }
    false
}

impl HeadscaleInstance {
    /// Whether objects of `ns` may use the instance.
    pub open spec fn allows(&self, ns: Seq<char>) -> bool {
        covers(texts_of(self.spec.watched_namespaces@), ns)
    }

    /// Whether objects of `ns` may use the instance.
    pub fn namespace_allowed(&self, ns: &str) -> (allowed: bool)
        ensures
            allowed == self.allows(ns@),
    {
        namespace_covered(&self.spec.watched_namespaces, ns)
    }

    /// Whether the instance is known to be ready.
    pub fn is_ready(&self) -> (ready: bool)
        ensures
            ready == (self.ready == Some(true)),
    {
        match self.ready {
            Some(ready) => ready,
            None => false,
        }
    }
}

} // verus!
