//! The config annotation of Ingresses and Services.

use crate::context::Context;
use crate::json::{as_text, json_of, lookup, member, parse_value, parsed_json, Json};
use crate::objects::{text_of, ObjectMeta, Resource};
use crate::text::{join2, join3, join4, same_text};
use crate::textmap::TextMap;
use vstd::prelude::*;
use vstd::string::*;

verus! {

pub const ANNOTATION_CONFIG: &'static str = "headmaster.potatonode.github.io/config";

/// How long an auth key is valid where the annotation does not say.
pub const DEFAULT_AUTH_KEY_EXPIRY_SECS: u64 = 600;

/// What parsing reports where no way to authenticate is given.
pub const NO_CREDENTIALS: &'static str =
    "at least one of 'user' or 'managed-key-tags' must be set";

/// Why an annotation is not usable.
#[derive(Debug, PartialEq, Eq)]
pub enum AnnotationError {
    /// The annotation of this name is not there.
    Missing(&'static str),
    /// The annotation of this name does not have the expected form.
    Invalid(&'static str, String),
    /// The annotation breaks a rule.
    InvalidAnnotations(&'static str),
}

impl Clone for AnnotationError {
    fn clone(&self) -> (copy: Self)
        ensures
            copy == *self,
    {
        match self {
            AnnotationError::Missing(key) => AnnotationError::Missing(key),
            AnnotationError::Invalid(key, problem) => AnnotationError::Invalid(
                key,
                problem.clone(),
            ),
            AnnotationError::InvalidAnnotations(problem) => AnnotationError::InvalidAnnotations(
                problem,
            ),
        }
    }
}

impl AnnotationError {
    /// The error in words.
    pub open spec fn words(&self) -> Seq<char> {
        match self {
            AnnotationError::Missing(key) => "required annotation '"@ + key@ + "' is missing"@,
            AnnotationError::Invalid(key, problem) => "invalid annotation '"@ + key@ + "': "@
                + problem@,
            AnnotationError::InvalidAnnotations(problem) => "invalid annotations: "@ + problem@,
        }
    }

    /// The error in words.
    pub fn message(&self) -> (text: String)
        ensures
            text@ == self.words(),
    {
        match self {
            AnnotationError::Missing(key) => join3("required annotation '", key, "' is missing"),
            AnnotationError::Invalid(key, problem) => join4(
                "invalid annotation '",
                key,
                "': ",
                problem.as_str(),
            ),
            AnnotationError::InvalidAnnotations(problem) => join2(
                "invalid annotations: ",
                problem,
            ),
        }
    }
}

/// One entry of the `access` list.
///
/// A grant has source principals and app capabilities. Without capabilities it
/// allows plain IP connectivity; with them it forwards those listed to the app.
#[derive(Debug, Clone)]
pub struct IngressAccessGrant {
    /// Groups, tags, autogroups, everyone, or a user email.
    pub from: Vec<String>,
    /// Arguments by capability name.
    pub capabilities: Option<TextMap<Vec<serde_json::Value>>>,
}

/// How the proxy of an exposed Service forwards traffic.
#[derive(Debug, Clone, Copy, PartialEq, Eq, Structural, Default)]
pub enum ProxyMode {
    /// Userspace forwarding by the serve config. Needs no privileges.
    #[default]
    Tsnet,
    /// Kernel forwarding through a TUN device to the ClusterIP.
    Tun,
}

/// One entry of the `consumers` list of an egress Service: pods that may reach
/// the egress proxy.
#[derive(Debug, Clone)]
pub struct EgressConsumer {
    /// Namespace of the consumer pods.
    pub namespace: String,
    /// Labels of the pods. None or empty means every pod of the namespace.
    pub pods: Option<TextMap<String>>,
}

/// The config annotation.
#[derive(Debug)]
pub struct IngressAnnotations {
    pub headscale_ref: String,
    /// Namespace of the operator deployment that is meant. `None` means the
    /// default deployment.
    pub headscale_namespace: Option<String>,
    pub user: Option<String>,
    pub managed_key_tags: Vec<String>,
    pub hostname: String,
    pub auth_key_expiry_secs: u64,
    pub auth_key_reusable: bool,
    /// Run the proxy pod on the node's own network. Ignored on ExternalName
    /// Services.
    pub host_network: bool,
    /// Tailnet host that an ExternalName Service egresses to. Required on
    /// ExternalName Services, whose `spec.externalName` the operator points at
    /// the proxy.
    pub tailnet_fqdn: Option<String>,
    /// Pods that may reach the egress proxy. Empty means any pod.
    pub consumers: Vec<EgressConsumer>,
    pub access: Vec<IngressAccessGrant>,
    /// How the proxy of an exposed Service forwards traffic.
    pub mode: ProxyMode,
}

/// How long a key is good for where the annotation does not say.
pub fn default_auth_key_expiry_secs() -> (secs: u64)
    ensures
        secs == DEFAULT_AUTH_KEY_EXPIRY_SECS,
{
    DEFAULT_AUTH_KEY_EXPIRY_SECS
}

/// The text member of that name in an object's config annotation, read without
/// looking at the rest of it.
pub open spec fn config_text(meta: ObjectMeta, key: Seq<char>) -> Option<Seq<char>> {
    match meta.annotation_of(ANNOTATION_CONFIG@) {
        Some(json) => match parsed_json(json) {
            Some(value) => text_member(value, key),
            None => None,
        },
        None => None,
    }
}

/// The text under a key of a JSON object.
pub open spec fn text_member(value: Json, key: Seq<char>) -> Option<Seq<char>> {
    match value {
        Json::Object(members) => match lookup(members, key) {
            Some(Json::Text(text)) => Some(text),
            _ => None,
        },
        _ => None,
    }
}

/// The text under a key of a JSON object.
pub fn member_text(value: &serde_json::Value, key: &str) -> (text: Option<String>)
    ensures
        text_of(text) == text_member(json_of(*value), key@),
{
    match member(value, key) {
        Some(found) => match as_text(found) {
            Some(text) => Some(String::from_str(text)),
            None => None,
        },
        None => None,
    }
}

fn config_member(meta: &ObjectMeta, key: &str) -> (text: Option<String>)
    ensures
        text_of(text) == config_text(*meta, key@),
{
    match meta.annotation(ANNOTATION_CONFIG) {
        Some(json) => match parse_value(json.as_str()) {
            Some(value) => member_text(&value, key),
            None => None,
        },
        None => None,
    }
}

/// Whether an object is meant for the deployment: its annotation names the
/// deployment's namespace, or names none and the deployment claims those.
pub open spec fn targets(meta: ObjectMeta, operator_namespace: Seq<char>, claim_default: bool) -> bool {
    match config_text(meta, "headscale-namespace"@) {
        Some(ns) => ns == operator_namespace,
        None => claim_default,
    }
}

/// Whether an object is meant for the deployment.
pub fn is_targeted<K: Resource>(obj: &K, ctx: &Context) -> (targeted: bool)
    ensures
        targeted == targets(obj.meta_of(), ctx.operator_namespace@, ctx.claim_default),
{
    match IngressAnnotations::headscale_namespace(obj) {
        Some(ns) => same_text(ns.as_str(), ctx.operator_namespace.as_str()),
        None => ctx.claim_default,
    }
}

/// Whether a member of an object is a text, or there is neither a text nor a
/// member other than null.
pub open spec fn optional_text(
    members: Seq<(Seq<char>, Json)>,
    key: Seq<char>,
    text: Option<String>,
) -> bool {
    match text {
        Some(text) => lookup(members, key) == Some(Json::Text(text@)),
        None => lookup(members, key) is None || lookup(members, key) == Some(Json::Null),
    }
}

impl IngressAnnotations {
    /// The tailnet host to egress to, where one is named.
    pub open spec fn tailnet_host(&self) -> Option<Seq<char>> {
        match self.tailnet_fqdn {
            Some(fqdn) => if fqdn@.len() > 0 {
                Some(fqdn@)
            } else {
                None
            },
            None => None,
        }
    }

    /// The tailnet host to egress to, where one is named.
    pub fn egress_host(&self) -> (host: Option<String>)
        ensures
            text_of(host) == self.tailnet_host(),
    {
        match &self.tailnet_fqdn {
            Some(fqdn) => if fqdn.as_str().is_empty() {
                None
            } else {
                Some(fqdn.clone())
            },
            None => None,
        }
    }

    /// Whether the texts of a decoded annotation are those that a JSON object
    /// has under their names. One that need not be given is missing or null.
    pub open spec fn carries_texts_of(&self, value: Json) -> bool {
        &&& value is Object
        &&& lookup(value->Object_0, "headscale-ref"@) == Some(Json::Text(self.headscale_ref@))
        &&& optional_text(value->Object_0, "headscale-namespace"@, self.headscale_namespace)
        &&& optional_text(value->Object_0, "user"@, self.user)
        &&& optional_text(value->Object_0, "tailnet-fqdn"@, self.tailnet_fqdn)
        &&& lookup(value->Object_0, "hostname"@) == Some(Json::Text(self.hostname@)) || (
        lookup(value->Object_0, "hostname"@) is None && self.hostname@.len() == 0)
    }

    /// Whether an annotation names a user or a tag to authenticate with.
    pub open spec fn has_credentials(&self) -> bool {
        self.user is Some || self.managed_key_tags@.len() > 0
    }

    /// What parsing makes of a decoded annotation: the same, with the object's
    /// name where no hostname is given.
    pub open spec fn completed(&self, decoded: Self, meta: ObjectMeta) -> bool {
        &&& self.headscale_ref == decoded.headscale_ref
        &&& self.headscale_namespace == decoded.headscale_namespace
        &&& self.user == decoded.user
        &&& self.managed_key_tags == decoded.managed_key_tags
        &&& self.auth_key_expiry_secs == decoded.auth_key_expiry_secs
        &&& self.auth_key_reusable == decoded.auth_key_reusable
        &&& self.host_network == decoded.host_network
        &&& self.tailnet_fqdn == decoded.tailnet_fqdn
        &&& self.consumers == decoded.consumers
        &&& self.access == decoded.access
        &&& self.mode == decoded.mode
        &&& self.hostname@ == if decoded.hostname@.len() == 0 {
            meta.any_name()
        } else {
            decoded.hostname@
        }
    }

    /// Whether `parsed` is what comes of the config annotation of an object,
    /// given what its JSON was decoded to.
    pub open spec fn is_parse_of(
        parsed: Result<Self, AnnotationError>,
        decoded: Result<Self, String>,
        meta: ObjectMeta,
    ) -> bool {
        match parsed {
            Ok(annotations) => meta.annotation_of(ANNOTATION_CONFIG@) is Some && decoded is Ok
                && decoded->Ok_0.has_credentials() && annotations.completed(decoded->Ok_0, meta),
            Err(AnnotationError::Missing(key)) => key@ == ANNOTATION_CONFIG@
                && meta.annotation_of(ANNOTATION_CONFIG@) is None,
            Err(AnnotationError::Invalid(key, problem)) => key@ == ANNOTATION_CONFIG@
                && meta.annotation_of(ANNOTATION_CONFIG@) is Some && decoded is Err && problem
                == decoded->Err_0,
            Err(AnnotationError::InvalidAnnotations(problem)) => problem@ == NO_CREDENTIALS@
                && meta.annotation_of(ANNOTATION_CONFIG@) is Some && decoded is Ok
                && !decoded->Ok_0.has_credentials(),
        }
    }

    /// The annotation that gives nothing but the headscale instance.
    pub fn minimal(headscale_ref: String) -> (annotations: Self)
        ensures
            annotations.headscale_ref == headscale_ref,
            annotations.headscale_namespace is None,
            annotations.user is None,
            annotations.managed_key_tags@.len() == 0,
            annotations.hostname@.len() == 0,
            annotations.auth_key_expiry_secs == DEFAULT_AUTH_KEY_EXPIRY_SECS,
            !annotations.auth_key_reusable,
            !annotations.host_network,
            annotations.tailnet_fqdn is None,
            annotations.consumers@.len() == 0,
            annotations.access@.len() == 0,
            annotations.mode == ProxyMode::Tsnet,
    {
        IngressAnnotations {
            headscale_ref,
            headscale_namespace: None,
            user: None,
            managed_key_tags: Vec::new(),
            hostname: String::new(),
            auth_key_expiry_secs: default_auth_key_expiry_secs(),
            auth_key_reusable: false,
            host_network: false,
            tailnet_fqdn: None,
            consumers: Vec::new(),
            access: Vec::new(),
            mode: ProxyMode::Tsnet,
        }
    }

    /// Parses the config annotation of an object. `decoded` is what its JSON
    /// was decoded to, or why it could not be.
    pub fn parse<K: Resource>(obj: &K, decoded: Result<Self, String>) -> (parsed: Result<
        Self,
        AnnotationError,
    >)
        ensures
            Self::is_parse_of(parsed, decoded, obj.meta_of()),
    {
        if obj.meta().annotation(ANNOTATION_CONFIG).is_none() {
            return Err(AnnotationError::Missing(ANNOTATION_CONFIG));
        }
        match decoded {
            Err(problem) => Err(AnnotationError::Invalid(ANNOTATION_CONFIG, problem)),
            Ok(annotations) => {
                if annotations.user.is_none() && annotations.managed_key_tags.len() == 0 {
                    return Err(AnnotationError::InvalidAnnotations(NO_CREDENTIALS));
                }
                let mut parsed = annotations;
                if parsed.hostname.as_str().is_empty() {
                    parsed.hostname = obj.meta().name_any();
                }
                Ok(parsed)
            },
        }
    }

    /// The `headscale-ref` of an object's annotation, without validation of
    /// the rest.
    pub fn headscale_ref<K: Resource>(obj: &K) -> (headscale_ref: Option<String>)
        ensures
            text_of(headscale_ref) == config_text(
                obj.meta_of(),
                "headscale-ref"@,
            ),
    {
        config_member(obj.meta(), "headscale-ref")
    }

    /// The `headscale-namespace` of an object's annotation, without validation
    /// of the rest.
    pub fn headscale_namespace<K: Resource>(obj: &K) -> (headscale_namespace: Option<String>)
        ensures
            text_of(headscale_namespace) == config_text(
                obj.meta_of(),
                "headscale-namespace"@,
            ),
    {
        config_member(obj.meta(), "headscale-namespace")
    }
}

/// The cheap readers agree with the parser wherever it succeeds: where the
/// annotation is the JSON object that was decoded, `headscale_ref` and
/// `headscale_namespace` read what the parsed annotation holds, and the object
/// is meant for the deployment that it names.
pub proof fn readers_agree_with_the_parser(
    meta: ObjectMeta,
    value: Json,
    decoded: IngressAnnotations,
    parsed: IngressAnnotations,
    operator_namespace: Seq<char>,
    claim_default: bool,
)
    requires
        meta.annotation_of(ANNOTATION_CONFIG@) is Some,
        parsed_json(meta.annotation_of(ANNOTATION_CONFIG@)->0) == Some(value),
        decoded.carries_texts_of(value),
        parsed.completed(decoded, meta),
    ensures
        config_text(meta, "headscale-ref"@) == Some(parsed.headscale_ref@),
        config_text(meta, "headscale-namespace"@) == text_of(parsed.headscale_namespace),
        targets(meta, operator_namespace, claim_default) == (match parsed.headscale_namespace {
            Some(ns) => ns@ == operator_namespace,
            None => claim_default,
        }),
{
}

} // verus!
