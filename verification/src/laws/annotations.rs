//! Laws of the config annotation.

use crate::annotations::{
    config_text, targets, AnnotationError, IngressAnnotations, DEFAULT_AUTH_KEY_EXPIRY_SECS,
};
use crate::context::Context;
use crate::dns::egress_shape;
use crate::json::{lookup, parsed_json, Json};
use crate::objects::{ObjectMeta, Service};
use vstd::prelude::*;
use vstd::string::*;

verus! {

/// The text of the config annotation, where an object has one.
pub open spec fn annotation_text(meta: ObjectMeta) -> Option<Seq<char>> {
    if meta.annotations is Some && meta.annotations->0@.contains_key(
        "headmaster.potatonode.github.io/config"@,
    ) {
        Some(meta.annotations->0@["headmaster.potatonode.github.io/config"@]@)
    } else {
        None
    }
}

/// Whether the config annotation is a JSON object with a text under a name.
pub open spec fn annotation_says(meta: ObjectMeta, key: Seq<char>, text: Seq<char>) -> bool {
    annotation_text(meta) is Some && parsed_json(annotation_text(meta)->0) is Some && parsed_json(
        annotation_text(meta)->0,
    )->0 is Object && lookup(parsed_json(annotation_text(meta)->0)->0->Object_0, key) == Some(
        Json::Text(text),
    )
}

/// A member of the annotation is read exactly where the annotation is an
/// object that has it as a text.
pub proof fn members_are_read_from_the_annotation(
    meta: ObjectMeta,
    key: Seq<char>,
    text: Seq<char>,
)
    ensures
        config_text(meta, key) == Some(text) <==> annotation_says(meta, key, text),
{
}

/// An object is meant for the deployment whose namespace its annotation names;
/// where it names none, for the deployment that claims those.
pub proof fn annotation_names_its_deployment(
    meta: ObjectMeta,
    ns: Seq<char>,
    operator_namespace: Seq<char>,
    claim_default: bool,
)
    ensures
        annotation_says(meta, "headscale-namespace"@, ns) ==> targets(
            meta,
            operator_namespace,
            claim_default,
        ) == (ns == operator_namespace),
        (forall|other: Seq<char>| !annotation_says(meta, "headscale-namespace"@, other)) ==> targets(
            meta,
            operator_namespace,
            claim_default,
        ) == claim_default,
{
    match config_text(meta, "headscale-namespace"@) {
        Some(named) => {
            members_are_read_from_the_annotation(meta, "headscale-namespace"@, named);
            members_are_read_from_the_annotation(meta, "headscale-namespace"@, ns);
        },
        None => {
            members_are_read_from_the_annotation(meta, "headscale-namespace"@, ns);
        },
    }
}

/// A parsed annotation holds what was decoded, each field as it was; only a
/// hostname that was not given is the object's name.
pub proof fn parsing_keeps_what_was_decoded(
    parsed: IngressAnnotations,
    decoded: IngressAnnotations,
    meta: ObjectMeta,
)
    requires
        parsed.completed(decoded, meta),
    ensures
        parsed.headscale_ref@ == decoded.headscale_ref@,
        parsed.headscale_namespace == decoded.headscale_namespace,
        parsed.user == decoded.user,
        parsed.managed_key_tags@ == decoded.managed_key_tags@,
        parsed.auth_key_expiry_secs == decoded.auth_key_expiry_secs,
        parsed.auth_key_reusable == decoded.auth_key_reusable,
        parsed.host_network == decoded.host_network,
        parsed.tailnet_fqdn == decoded.tailnet_fqdn,
        parsed.consumers@ == decoded.consumers@,
        parsed.access@ == decoded.access@,
        parsed.mode == decoded.mode,
        decoded.hostname@.len() > 0 ==> parsed.hostname@ == decoded.hostname@,
        decoded.hostname@.len() == 0 && meta.name is Some ==> parsed.hostname@ == meta.name->0@,
{
}

/// Either a user or a tag is enough to authenticate with, and nothing else is.
pub proof fn user_or_tag_authenticates(annotations: IngressAnnotations)
    ensures
        annotations.has_credentials() <==> (annotations.user is Some
            || annotations.managed_key_tags@.len() > 0),
{
}

/// The tailnet host is the one that the annotation names; no name is none.
pub proof fn tailnet_host_is_named(annotations: IngressAnnotations, host: Seq<char>)
    ensures
        annotations.tailnet_host() == Some(host) <==> annotations.tailnet_fqdn is Some
            && annotations.tailnet_fqdn->0@ == host && host.len() > 0,
{
}

/// A Service has the shape of an egress Service exactly where it is of type
/// ExternalName and has a config annotation.
pub proof fn egress_services_are_annotated_external_names(svc: Service)
    ensures
        egress_shape(svc) <==> svc.spec is Some && svc.spec->0.type_ is Some
            && svc.spec->0.type_->0@ == "ExternalName"@ && annotation_text(svc.metadata) is Some,
{
}

/// A Service is this deployment's to provide egress for: it has the shape, and
/// its annotation names the deployment, or none and the deployment claims
/// those.
pub open spec fn is_ours(svc: Service, ctx: Context) -> bool {
    &&& svc.spec is Some && svc.spec->0.type_ is Some && svc.spec->0.type_->0@ == "ExternalName"@
    &&& annotation_text(svc.metadata) is Some
    &&& annotation_says(svc.metadata, "headscale-namespace"@, ctx.operator_namespace@) || (
    ctx.claim_default && (forall|other: Seq<char>|
        !annotation_says(svc.metadata, "headscale-namespace"@, other)))
}

/// Being ours is having the shape and being meant for the deployment.
pub proof fn ours_is_shape_and_target(svc: Service, ctx: Context)
    ensures
        is_ours(svc, ctx) <==> egress_shape(svc) && targets(
            svc.metadata,
            ctx.operator_namespace@,
            ctx.claim_default,
        ),
{
    let meta = svc.metadata;
    let own = ctx.operator_namespace@;
    annotation_names_its_deployment(meta, own, own, ctx.claim_default);
    match config_text(meta, "headscale-namespace"@) {
        Some(named) => {
            members_are_read_from_the_annotation(meta, "headscale-namespace"@, named);
            members_are_read_from_the_annotation(meta, "headscale-namespace"@, own);
            annotation_names_its_deployment(meta, named, own, ctx.claim_default);
        },
        None => {
            assert forall|other: Seq<char>| !annotation_says(
                meta,
                "headscale-namespace"@,
                other,
            ) by {
                members_are_read_from_the_annotation(meta, "headscale-namespace"@, other);
            }
        },
    }
}

/// An annotation that is missing, malformed or incomplete is told apart in
/// words.
pub proof fn annotation_errors_name_their_cause(e: AnnotationError)
    ensures
        match e {
            AnnotationError::Missing(key) => e.words() == "required annotation '"@ + key@
                + "' is missing"@,
            AnnotationError::Invalid(key, problem) => e.words() == "invalid annotation '"@ + key@
                + "': "@ + problem@,
            AnnotationError::InvalidAnnotations(problem) => e.words() == "invalid annotations: "@
                + problem@,
        },
{
}

/// A key lasts ten minutes where the annotation does not say how long.
pub proof fn keys_last_ten_minutes_by_default()
    ensures
        DEFAULT_AUTH_KEY_EXPIRY_SECS == 10 * 60,
{
}

/// A decoded annotation carries the texts of a JSON object exactly where each
/// text stands under its name. The instance has to be named; a text that need
/// not be given is missing or null, and a missing hostname is empty.
pub proof fn texts_stand_under_their_names(decoded: IngressAnnotations, value: Json)
    ensures
        decoded.carries_texts_of(value) <==> {
            &&& value is Object
            &&& lookup(value->Object_0, "headscale-ref"@) == Some(
                Json::Text(decoded.headscale_ref@),
            )
            &&& stands_under(value->Object_0, "headscale-namespace"@, decoded.headscale_namespace)
            &&& stands_under(value->Object_0, "user"@, decoded.user)
            &&& stands_under(value->Object_0, "tailnet-fqdn"@, decoded.tailnet_fqdn)
            &&& lookup(value->Object_0, "hostname"@) is Some ==> lookup(
                value->Object_0,
                "hostname"@,
            )->0 == Json::Text(decoded.hostname@)
            &&& lookup(value->Object_0, "hostname"@) is None ==> decoded.hostname@.len() == 0
        },
{
}

/// Whether an optional text is what stands under a name: where there is none,
/// nothing or null stands there.
pub open spec fn stands_under(
    members: Seq<(Seq<char>, Json)>,
    key: Seq<char>,
    text: Option<String>,
) -> bool {
    if text is Some {
        lookup(members, key) is Some && lookup(members, key)->0 == Json::Text(text->0@)
    } else {
        lookup(members, key) is Some ==> lookup(members, key)->0 is Null
    }
}

/// An annotation is usable exactly where there is one, its JSON could be
/// decoded, and it names a user or a tag; what is wrong with any other is said.
pub proof fn annotations_are_usable_where_they_can_be(
    parsed: Result<IngressAnnotations, AnnotationError>,
    decoded: Result<IngressAnnotations, String>,
    meta: ObjectMeta,
)
    requires
        IngressAnnotations::is_parse_of(parsed, decoded, meta),
    ensures
        ({
            let there = annotation_text(meta) is Some;
            let credited = decoded is Ok && (decoded->Ok_0.user is Some
                || decoded->Ok_0.managed_key_tags@.len() > 0);
            &&& parsed is Ok <==> there && credited
            &&& parsed is Ok ==> parsed->Ok_0.completed(decoded->Ok_0, meta)
            &&& !there ==> parsed is Err && parsed->Err_0 is Missing && parsed->Err_0->Missing_0@
                == "headmaster.potatonode.github.io/config"@
            &&& there && decoded is Err ==> parsed is Err && parsed->Err_0 is Invalid
                && parsed->Err_0->Invalid_0@ == "headmaster.potatonode.github.io/config"@
                && parsed->Err_0->Invalid_1 == decoded->Err_0
            &&& there && decoded is Ok && !credited ==> parsed is Err
                && parsed->Err_0 is InvalidAnnotations && parsed->Err_0->InvalidAnnotations_0@
                == "at least one of 'user' or 'managed-key-tags' must be set"@
        }),
{
}

} // verus!
