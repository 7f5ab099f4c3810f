//! Laws of Secrets, of connecting to headscale, and of moving proxies and
//! taking them down.

use crate::error::{Error, KubeError, StatusCode};
use crate::instance::HeadscaleInstance;
use crate::names::ProxyNames;
use crate::objects::{ObjectMeta, Secret};
use crate::step::NoticeView;
use crate::support::{
    connect_step, deregister_step, lossy_utf8, namespace_deleting, registered_node, resources_of,
    retarget_step, secret_text, secret_text_list, ConnectActionView, ConnectErrorView, ConnectKnown,
    DeregisterActionView, DeregisterKnown, ResourceKind, RetargetActionView, RetargetKnown,
};
use crate::text::{decimal, parsed_u64};
use vstd::prelude::*;
use vstd::string::*;
use vstd::utf8::*;

verus! {

/// Whether a call was made and succeeded.
pub open spec fn went_well<T, E>(reply: Option<Result<T, E>>) -> bool {
    reply is Some && reply->0 is Ok
}

/// Whether the API server answered that an object does not exist.
pub open spec fn absent(e: KubeError) -> bool {
    e.api_code is Some && e.api_code->0 == 404
}

/// The API server says by the code 404, and by no other, that an object does
/// not exist.
pub proof fn absence_is_told_by_its_code(e: KubeError)
    ensures
        e.not_found() <==> absent(e),
{
}

// ---- Secrets ----

/// Whether a Secret holds bytes under a key.
pub open spec fn holds(secret: Secret, key: Seq<char>, bytes: Seq<u8>) -> bool {
    secret.data is Some && secret.data->0@.contains_key(key) && secret.data->0@[key]@ == bytes
}

/// A text is read from a Secret exactly where it holds the bytes that encode
/// the text under the key.
pub proof fn texts_are_read_as_they_were_written(
    secret: Secret,
    key: Seq<char>,
    text: Seq<char>,
)
    ensures
        holds(secret, key, encode_utf8(text)) ==> secret_text(secret, key) == Some(text),
        secret_text(secret, key) == Some(text) ==> holds(secret, key, encode_utf8(text)),
{
    encode_utf8_valid_utf8(text);
    encode_utf8_decode_utf8(text);
    if secret_text(secret, key) == Some(text) {
        decode_utf8_encode_utf8(secret.data->0@[key]@);
    }
}

/// A registered node is the number that the state Secret holds as its device,
/// and every number that it holds is one.
pub proof fn node_is_the_recorded_device(secret: Secret, node_id: u64)
    ensures
        holds(secret, "device_id"@, encode_utf8(decimal(node_id as int))) ==> registered_node(
            secret,
        ) == Some(node_id),
        registered_node(secret) == Some(node_id) ==> exists|text: Seq<char>| #[trigger]
            holds(secret, "device_id"@, encode_utf8(text)) && parsed_u64(text) == Some(node_id),
{
    crate::text::decimal_round_trip(node_id);
    texts_are_read_as_they_were_written(secret, "device_id"@, decimal(node_id as int));
    if registered_node(secret) == Some(node_id) {
        let text = secret_text(secret, "device_id"@)->0;
        texts_are_read_as_they_were_written(secret, "device_id"@, text);
        assert(holds(secret, "device_id"@, encode_utf8(text)));
    }
}

/// A Secret without the key has no text, no list and no node.
pub proof fn nothing_is_read_from_a_missing_key(secret: Secret, key: Seq<char>)
    requires
        secret.data is None || !secret.data->0@.contains_key(key),
    ensures
        secret_text(secret, key) is None,
        secret_text_list(secret, key) is None,
        key == "device_id"@ ==> registered_node(secret) is None,
{
}

/// A list is read from the bytes of its key.
pub proof fn lists_are_read_from_their_key(secret: Secret, key: Seq<char>, bytes: Seq<u8>)
    requires
        holds(secret, key, bytes),
    ensures
        secret_text_list(secret, key) == crate::json::parsed_text_list(bytes),
{
}

// ---- namespaces ----

/// A namespace is going away where it is marked for deletion or does not exist;
/// any other failure to read it is a failure.
pub proof fn marked_or_missing_namespaces_go_away(answer: Result<ObjectMeta, KubeError>)
    ensures
        answer is Ok ==> namespace_deleting(answer) == Ok::<bool, Error>(
            answer->Ok_0.deletion_timestamp is Some,
        ),
        answer is Err && absent(answer->Err_0) ==> namespace_deleting(answer) == Ok::<bool, Error>(
            true,
        ),
        answer is Err && !absent(answer->Err_0) ==> namespace_deleting(answer) == Err::<
            bool,
            Error,
        >(Error::Kube(answer->Err_0)),
{
}

// ---- the resources of a proxy ----

/// Taking a proxy down deletes its StatefulSet, its Service, both its Secrets,
/// its ConfigMap, its policy and its rights, each by its own name, and nothing
/// else.
pub proof fn teardown_names_every_resource(names: ProxyNames, kind: ResourceKind, name: Seq<char>)
    ensures
        resources_of(names).contains((kind, name)) <==> match kind {
            ResourceKind::Service => name == names.wg_service_name@,
            ResourceKind::Secret => name == names.config_secret_name@ || name
                == names.state_secret_name@,
            ResourceKind::ConfigMap => name == names.serve_configmap_name@,
            _ => name == names.proxy_name@,
        },
{
    let all = resources_of(names);
    assert(all[0] == (ResourceKind::StatefulSet, names.proxy_name@));
    assert(all[1] == (ResourceKind::Service, names.wg_service_name@));
    assert(all[2] == (ResourceKind::Secret, names.config_secret_name@));
    assert(all[3] == (ResourceKind::Secret, names.state_secret_name@));
    assert(all[4] == (ResourceKind::ConfigMap, names.serve_configmap_name@));
    assert(all[5] == (ResourceKind::NetworkPolicy, names.proxy_name@));
    assert(all[6] == (ResourceKind::RoleBinding, names.proxy_name@));
    assert(all[7] == (ResourceKind::Role, names.proxy_name@));
    assert(all[8] == (ResourceKind::ServiceAccount, names.proxy_name@));
    if all.contains((kind, name)) {
        let i = all.index_of((kind, name));
        assert(0 <= i < 9);
    }
}

// ---- taking a proxy down ----

/// Headscale is asked only about a node that the state Secret records, by the
/// number that it records; and at the instance that it records, else at the
/// one that the caller names.
pub proof fn teardown_asks_the_recorded_instance(
    known: DeregisterKnown,
    fallback: Seq<char>,
    recorded: Seq<char>,
)
    ensures
        ({
            let action = deregister_step(known, fallback).action;
            &&& action is Connect || action is DeleteNode ==> went_well(known.state)
                && registered_node(known.state->0->Ok_0) is Some
            &&& action is DeleteNode ==> Some(action->node_id) == registered_node(
                known.state->0->Ok_0,
            ) && went_well(known.connected)
            &&& action is Connect && holds(
                known.state->0->Ok_0,
                "headscale_ref"@,
                encode_utf8(recorded),
            ) ==> action->headscale_ref == recorded
            &&& action is Connect && (known.state->0->Ok_0.data is None
                || !known.state->0->Ok_0.data->0@.contains_key("headscale_ref"@))
                ==> action->headscale_ref == fallback
        }),
{
    if known.state is Some && known.state->0 is Ok {
        texts_are_read_as_they_were_written(known.state->0->Ok_0, "headscale_ref"@, recorded);
    }
}

/// What taking a proxy down asks for next, by what is known: the state Secret;
/// for a recorded node the connection, then the node; then the resources. It
/// ends well after those, and fails only where the state Secret cannot be
/// read.
pub proof fn teardown_takes_its_course(known: DeregisterKnown, fallback: Seq<char>)
    ensures
        ({
            let step = deregister_step(known, fallback);
            let recorded = went_well(known.state) && registered_node(known.state->0->Ok_0) is Some;
            let settled = known.state is Some && (known.state->0 is Ok || absent(
                known.state->0->Err_0,
            )) && (recorded ==> known.connected is Some && (known.connected->0 is Err
                || known.node_deleted is Some));
            &&& step.action is ReadState <==> known.state is None
            &&& step.action is Connect <==> recorded && known.connected is None
            &&& step.action is DeleteNode <==> recorded && went_well(known.connected)
                && known.node_deleted is None
            &&& step.action is DeleteResources <==> settled && !known.cleaned
            &&& step.action == DeregisterActionView::Done(Ok::<(), Error>(())) <==> settled
                && known.cleaned
            &&& step.action == DeregisterActionView::Done(
                Err::<(), Error>(Error::Kube(known.state->0->Err_0)),
            ) <==> known.state is Some && known.state->0 is Err && !absent(known.state->0->Err_0)
        }),
{
}

/// What is said when a proxy is taken down: that it is gone where headscale no
/// longer has its node, a warning where headscale may still have it, and
/// nothing of a proxy that never registered.
pub proof fn teardown_says_what_became_of_the_node(known: DeregisterKnown, fallback: Seq<char>)
    ensures
        ({
            let step = deregister_step(known, fallback);
            let node = registered_node(known.state->0->Ok_0);
            &&& step.action !is DeleteResources ==> step.notices.len() == 0
            &&& step.action is DeleteResources && known.state->0 is Err ==> step.notices.len() == 0
            &&& step.action is DeleteResources && known.state->0 is Ok && node is None
                ==> step.notices.len() == 0
            &&& step.action is DeleteResources && known.state->0 is Ok && node is Some ==> {
                let number = decimal(node->0 as int);
                step.notices.len() == 1 && step.notices[0] == if known.connected->0 is Err {
                    NoticeView::Warning {
                        reason: "NodeOrphaned"@,
                        message: "could not connect to headscale to delete node "@ + number + ": "@
                            + known.connected->0->Err_0.text@
                            + "; the node may remain registered in headscale"@,
                    }
                } else if known.node_deleted->0 is Ok || known.node_deleted->0->Err_0.code
                    == StatusCode::NotFound {
                    NoticeView::Deleted
                } else {
                    NoticeView::Warning {
                        reason: "NodeOrphaned"@,
                        message: "could not delete node "@ + number + " from headscale: "@
                            + known.node_deleted->0->Err_0.message@
                            + "; the node may remain registered in headscale"@,
                    }
                }
            }
        }),
{
}

// ---- connecting ----

/// An instance outside the cluster is dialled at its own endpoint, with the
/// key of the Secret that it names; one that the operator runs at its Service,
/// with the key of its own Secret.
pub proof fn instances_are_dialled_where_they_are(
    known: ConnectKnown,
    namespace: Seq<char>,
    name: Seq<char>,
    instance: HeadscaleInstance,
)
    requires
        known.instance == Some(Ok::<HeadscaleInstance, KubeError>(instance)),
    ensures
        ({
            let action = connect_step(known, namespace, name);
            let external = instance.spec.external;
            let secret_name = if external is Some {
                external->0.api_key_secret_ref@
            } else {
                "headscale-api-key-"@ + name
            };
            &&& known.secret is None ==> action == (ConnectActionView::GetSecret {
                name: secret_name,
            })
            &&& known.secret is Some && known.secret->0 is Ok ==> match action {
                ConnectActionView::Dial { endpoint, api_key } => endpoint == (if external is Some {
                    external->0.grpc_endpoint@
                } else {
                    "http://headscale-server-"@ + name + "."@ + namespace + ".svc:50443"@
                }) && known.secret->0->Ok_0.data is Some && known.secret->0->Ok_0.data->0@.contains_key(
                    "HEADSCALE_API_KEY"@,
                ) && api_key == lossy_utf8(
                    known.secret->0->Ok_0.data->0@["HEADSCALE_API_KEY"@]@,
                ),
                ConnectActionView::Fail(ConnectErrorView::Failure { message, reason, code }) => (
                known.secret->0->Ok_0.data is None
                    || !known.secret->0->Ok_0.data->0@.contains_key("HEADSCALE_API_KEY"@))
                    && message == "api-key secret has no 'HEADSCALE_API_KEY' field"@ && reason
                    == "InvalidSecret"@ && code == 500,
                _ => false,
            }
            &&& known.secret is Some && known.secret->0 is Err ==> action
                == ConnectActionView::Fail(
                if absent(known.secret->0->Err_0) {
                    ConnectErrorView::Failure {
                        message: "Secret "@ + secret_name
                            + " not found; is HeadscaleInstance ready?"@,
                        reason: "NotFound"@,
                        code: 404,
                    }
                } else {
                    ConnectErrorView::Kube(known.secret->0->Err_0)
                },
            )
        }),
{
}

/// Before an instance is known it is read; a failure to read it is reported as
/// it is.
pub proof fn instance_is_read_before_it_is_dialled(
    known: ConnectKnown,
    namespace: Seq<char>,
    name: Seq<char>,
)
    ensures
        connect_step(known, namespace, name) is GetInstance <==> known.instance is None,
        known.instance is Some && known.instance->0 is Err ==> connect_step(known, namespace, name)
            == ConnectActionView::Fail(ConnectErrorView::Kube(known.instance->0->Err_0)),
{
}

// ---- moving a proxy ----

/// Whether a proxy has to move: its state Secret records an instance, and that
/// is another than the wanted one.
pub open spec fn has_to_move(known: RetargetKnown, headscale_ref: Seq<char>, old_ref: Seq<char>) -> bool {
    went_well(known.state) && holds(known.state->0->Ok_0, "headscale_ref"@, encode_utf8(old_ref))
        && old_ref != headscale_ref
}

/// A proxy that has to move leaves its old instance: it is connected to, the
/// recorded node is deleted there, then the key goes, then the state. What
/// does not exist any more is passed over; any other failure ends it.
pub proof fn moving_takes_its_course(
    known: RetargetKnown,
    headscale_ref: Seq<char>,
    old_ref: Seq<char>,
)
    requires
        has_to_move(known, headscale_ref, old_ref),
    ensures
        ({
            let action = retarget_step(known, headscale_ref);
            let node = registered_node(known.state->0->Ok_0);
            let off = node is None || (known.connected is Some && known.connected->0 is Err
                && absent(known.connected->0->Err_0)) || (went_well(known.connected)
                && known.node_deleted is Some && (known.node_deleted->0 is Ok
                || known.node_deleted->0->Err_0.code == StatusCode::NotFound));
            &&& node is Some && known.connected is None ==> action
                == (RetargetActionView::Connect { headscale_ref: old_ref })
            &&& node is Some && known.connected is Some && known.connected->0 is Err && !absent(
                known.connected->0->Err_0,
            ) ==> action == RetargetActionView::Done(
                Err::<(), Error>(Error::Kube(known.connected->0->Err_0)),
            )
            &&& node is Some && went_well(known.connected) && known.node_deleted is None ==> action
                == (RetargetActionView::DeleteNode { node_id: node->0 })
            &&& node is Some && went_well(known.connected) && known.node_deleted is Some
                && known.node_deleted->0 is Err && known.node_deleted->0->Err_0.code
                != StatusCode::NotFound ==> action == RetargetActionView::Done(
                Err::<(), Error>(Error::HeadscaleApi(known.node_deleted->0->Err_0)),
            )
            &&& off && known.config_deleted is None ==> action is DeleteConfigSecret
            &&& off && known.config_deleted is Some && known.config_deleted->0 is Err ==> action
                == RetargetActionView::Done(
                Err::<(), Error>(known.config_deleted->0->Err_0),
            )
            &&& off && went_well(known.config_deleted) && known.state_deleted is None ==> action
                is DeleteStateSecret
            &&& off && went_well(known.config_deleted) && known.state_deleted is Some ==> action
                == RetargetActionView::Done(known.state_deleted->0)
        }),
{
    texts_are_read_as_they_were_written(known.state->0->Ok_0, "headscale_ref"@, old_ref);
}

/// A proxy that need not move is left alone, and so is one that has no state
/// yet; a state that cannot be read is a failure.
pub proof fn only_moved_proxies_are_touched(
    known: RetargetKnown,
    headscale_ref: Seq<char>,
)
    ensures
        retarget_step(known, headscale_ref) is ReadState <==> known.state is None,
        went_well(known.state) && (forall|old_ref: Seq<char>|
            !has_to_move(known, headscale_ref, old_ref)) ==> retarget_step(known, headscale_ref)
            == RetargetActionView::Done(Ok::<(), Error>(())),
        known.state is Some && known.state->0 is Err ==> retarget_step(known, headscale_ref)
            == RetargetActionView::Done(
            if absent(known.state->0->Err_0) {
                Ok::<(), Error>(())
            } else {
                Err(Error::Kube(known.state->0->Err_0))
            },
        ),
{
    if went_well(known.state) {
        match secret_text(known.state->0->Ok_0, "headscale_ref"@) {
            Some(old_ref) => {
                texts_are_read_as_they_were_written(
                    known.state->0->Ok_0,
                    "headscale_ref"@,
                    old_ref,
                );
                assert(old_ref != headscale_ref ==> has_to_move(known, headscale_ref, old_ref));
            },
            None => {},
        }
    }
}

} // verus!
