//! Laws of the life of a pre-auth key.

use crate::auth_key::{
    auth_key_in, auth_key_step, epoch_secs, expiration_of, is_existing_key, key_expired,
    node_expired, rotate_step, AuthKeyAction, AuthKeyActionView, AuthKeyKnown, AuthKeyRequestView,
    AuthKeyStatus, RotateAction, RotateKnown,
};
use crate::error::{Error, ErrorView, KubeError, StatusCode};
use crate::laws::support::{absent, holds, texts_are_read_as_they_were_written, went_well};
use crate::objects::Secret;
use crate::step::NoticeView;
use crate::support::registered_node;
use crate::text::decimal;
use vstd::prelude::*;
use vstd::string::*;
use vstd::utf8::*;

verus! {

// ---- time ----

/// A clock before the epoch shows the epoch, any other its own time.
pub proof fn clocks_do_not_go_below_the_epoch(clock: i64)
    ensures
        clock >= 0 ==> epoch_secs(clock) == clock,
        clock < 0 ==> epoch_secs(clock) == 0,
{
}

/// A key is good for exactly as long as was asked, as far as the time can be
/// told.
pub proof fn keys_live_as_long_as_asked(clock: i64, expiry_secs: u64)
    ensures
        clock >= 0 && clock + expiry_secs <= i64::MAX ==> expiration_of(clock, expiry_secs) - clock
            == expiry_secs,
        clock + expiry_secs > i64::MAX ==> expiration_of(clock, expiry_secs) == i64::MAX,
        clock < 0 && clock + expiry_secs < 0 ==> expiration_of(clock, expiry_secs) == i64::MAX,
        clock < 0 && 0 <= clock + expiry_secs <= i64::MAX ==> expiration_of(clock, expiry_secs)
            - clock == expiry_secs,
{
}

/// A key is past its time from the second after its expiry on, and not before.
pub proof fn keys_expire_after_their_time(created: i64, expiry_secs: u64, clock: i64)
    requires
        clock >= 0,
    ensures
        expiry_secs <= i64::MAX ==> (key_expired(created, expiry_secs, clock) <==> clock - created
            > expiry_secs),
        expiry_secs > i64::MAX ==> (key_expired(created, expiry_secs, clock) <==> clock - created
            > i64::MAX),
{
}

/// Before the epoch a key that was made later than the window allows is kept.
pub proof fn keys_are_measured_from_the_epoch(created: i64, expiry_secs: u64, clock: i64)
    requires
        clock < 0,
    ensures
        key_expired(created, expiry_secs, clock) == key_expired(created, expiry_secs, 0),
{
}

/// A node has expired where its expiry lies behind; no expiry, or none after
/// the epoch, is never.
pub proof fn nodes_expire_after_their_time(expiry: Option<i64>, clock: i64)
    requires
        clock >= 0,
    ensures
        node_expired(expiry, clock) <==> expiry is Some && expiry->0 > 0 && expiry->0 < clock,
{
}

// ---- the key in its Secret ----

/// The key of a proxy is the text that its config Secret holds as one; an empty
/// text is none.
pub proof fn key_is_the_text_of_its_secret(secret: Secret, key: Seq<char>)
    ensures
        auth_key_in(secret) == Some(key) <==> holds(secret, "key"@, encode_utf8(key)) && key.len()
            > 0,
{
    texts_are_read_as_they_were_written(secret, "key"@, key);
}

/// Whether the config Secret holds a key.
pub open spec fn key_is_there(known: AuthKeyKnown) -> bool {
    went_well(known.config) && exists|key: Seq<char>|
        #![trigger encode_utf8(key)]
        holds(known.config->0->Ok_0, "key"@, encode_utf8(key)) && key.len() > 0
}

/// Whether the config Secret was looked for and holds no key.
pub open spec fn key_is_missing(known: AuthKeyKnown) -> bool {
    known.config is Some && !key_is_there(known) && (known.config->0 is Err ==> absent(
        known.config->0->Err_0,
    ))
}

proof fn lemma_key_is_there(known: AuthKeyKnown)
    requires
        went_well(known.config),
    ensures
        key_is_there(known) <==> auth_key_in(known.config->0->Ok_0) is Some,
{
    let secret = known.config->0->Ok_0;
    match auth_key_in(secret) {
        Some(key) => {
            key_is_the_text_of_its_secret(secret, key);
            assert(holds(secret, "key"@, encode_utf8(key)) && key.len() > 0);
        },
        None => {
            assert forall|key: Seq<char>|
                #![trigger encode_utf8(key)]
                !(holds(secret, "key"@, encode_utf8(key)) && key.len() > 0) by {
                key_is_the_text_of_its_secret(secret, key);
            }
        },
    }
}

// ---- making a key ----

/// What an action says is what its fields hold.
pub proof fn key_actions_say_what_they_hold(action: AuthKeyAction)
    ensures
        match action {
            AuthKeyAction::ListUsers { name } => action@ == (AuthKeyActionView::ListUsers {
                name: name@,
            }),
            AuthKeyAction::CreateKey { user, reusable, ephemeral, expiration_secs, acl_tags } => {
                &&& action@ is CreateKey
                &&& action@->user == user
                &&& action@->reusable == reusable
                &&& action@->ephemeral == ephemeral
                &&& action@->expiration_secs == expiration_secs
                &&& action@->acl_tags.len() == acl_tags@.len()
                &&& forall|i: int|
                    0 <= i < acl_tags@.len() ==> #[trigger] action@->acl_tags[i] == acl_tags@[i]@
            },
            AuthKeyAction::SaveKey { key } => action@ == (AuthKeyActionView::SaveKey {
                key: key@,
            }),
            AuthKeyAction::RevokeKey { id } => action@ == (AuthKeyActionView::RevokeKey { id }),
            AuthKeyAction::Done(Ok(status)) => action@ == AuthKeyActionView::Done(
                Ok::<AuthKeyStatus, ErrorView>(status),
            ),
            AuthKeyAction::Done(Err(e)) => action@ == AuthKeyActionView::Done(
                Err::<AuthKeyStatus, ErrorView>(e@),
            ),
            AuthKeyAction::ReadConfig => action@ is ReadConfig,
            AuthKeyAction::ReadClock => action@ is ReadClock,
        },
{
}

/// The user that a key is made for, once that is known: the first of the
/// wanted name, or none.
pub open spec fn has_user(known: AuthKeyKnown, request: AuthKeyRequestView, user: u64) -> bool {
    match request.user {
        Some(_) => went_well(known.users) && known.users->0->Ok_0@.len() > 0
            && known.users->0->Ok_0@[0] == user,
        None => user == 0,
    }
}

/// The config Secret is read first. A key that is there is enough; a Secret
/// that cannot be read is a failure; else the clock is read, and the users of
/// the wanted name are listed where one is wanted.
pub proof fn existing_key_is_looked_for_first(known: AuthKeyKnown, request: AuthKeyRequestView)
    ensures
        ({
            let step = auth_key_step(known, request);
            &&& step.action is ReadConfig <==> known.config is None
            &&& key_is_there(known) ==> step.action == AuthKeyActionView::Done(
                Ok::<AuthKeyStatus, ErrorView>(AuthKeyStatus::Ready),
            ) && step.notices.len() == 0
            &&& known.config is Some && known.config->0 is Err && !absent(known.config->0->Err_0)
                ==> step.action == AuthKeyActionView::Done(
                Err::<AuthKeyStatus, ErrorView>(
                    ErrorView::Kube {
                        api_code: known.config->0->Err_0.api_code,
                        text: known.config->0->Err_0.text@,
                    },
                ),
            )
            &&& step.action is ReadClock <==> key_is_missing(known) && known.clock is None
            &&& step.action is ListUsers <==> key_is_missing(known) && known.clock is Some
                && request.user is Some && known.users is None
            &&& step.action is ListUsers ==> Some(step.action->name) == request.user
        }),
{
    if went_well(known.config) {
        lemma_key_is_there(known);
    }
}

/// A user that cannot be listed is a failure; one that does not exist is waited
/// for, with a warning.
pub proof fn missing_user_is_waited_for(
    known: AuthKeyKnown,
    request: AuthKeyRequestView,
    name: Seq<char>,
)
    requires
        key_is_missing(known),
        known.clock is Some,
        request.user == Some(name),
        known.users is Some,
    ensures
        ({
            let step = auth_key_step(known, request);
            &&& known.users->0 is Err ==> step.action == AuthKeyActionView::Done(
                Err::<AuthKeyStatus, ErrorView>(
                    ErrorView::HeadscaleApi {
                        code: known.users->0->Err_0.code,
                        message: known.users->0->Err_0.message@,
                    },
                ),
            )
            &&& known.users->0 is Ok && known.users->0->Ok_0@.len() == 0 ==> step.action
                == AuthKeyActionView::Done(
                Ok::<AuthKeyStatus, ErrorView>(AuthKeyStatus::WaitingForUser),
            ) && step.notices.len() == 1 && step.notices[0] == (NoticeView::Warning {
                reason: "UserNotFound"@,
                message: "headscale user '"@ + name
                    + "' does not exist; create it in headscale before this proxy can be provisioned"@,
            })
            &&& known.users->0 is Ok && known.users->0->Ok_0@.len() > 0 ==> step.action
                != AuthKeyActionView::Done(
                Ok::<AuthKeyStatus, ErrorView>(AuthKeyStatus::WaitingForUser),
            )
        }),
{
    if went_well(known.config) {
        lemma_key_is_there(known);
    }
}

/// A key is made with what was asked for: for the user, as reusable and as
/// ephemeral as wanted, for as long as wanted, with all managed tags in their
/// order and the assigned tag behind them.
pub proof fn key_is_made_as_asked(known: AuthKeyKnown, request: AuthKeyRequestView, user: u64)
    requires
        key_is_missing(known),
        known.clock is Some,
        has_user(known, request, user),
        known.created is None,
    ensures
        ({
            let action = auth_key_step(known, request).action;
            let managed = request.managed_key_tags;
            let clock = known.clock->0;
            &&& action is CreateKey
            &&& action->user == user
            &&& action->reusable == request.reusable
            &&& action->ephemeral == request.ephemeral
            &&& clock >= 0 && clock + request.expiry_secs <= i64::MAX ==> action->expiration_secs
                == clock + request.expiry_secs
            &&& clock >= 0 && clock + request.expiry_secs > i64::MAX ==> action->expiration_secs
                == i64::MAX
            &&& action->acl_tags.take(managed.len() as int) == managed
            &&& request.auto_tag is Some ==> action->acl_tags == managed.push(request.auto_tag->0)
            &&& request.auto_tag is None ==> action->acl_tags == managed
        }),
{
    if went_well(known.config) {
        lemma_key_is_there(known);
    }
    let managed = request.managed_key_tags;
    assert(managed.take(managed.len() as int) =~= managed);
    if request.auto_tag is Some {
        assert(managed.push(request.auto_tag->0).take(managed.len() as int) =~= managed);
    }
}

/// A key that headscale made is saved as it is. It is ready once it is saved;
/// where it cannot be saved it is taken back, by its own number, and the
/// failure to save it is reported. A key that headscale did not make is a
/// failure.
pub proof fn made_key_is_saved_or_taken_back(
    known: AuthKeyKnown,
    request: AuthKeyRequestView,
    user: u64,
)
    requires
        key_is_missing(known),
        known.clock is Some,
        has_user(known, request, user),
        known.created is Some,
    ensures
        ({
            let action = auth_key_step(known, request).action;
            &&& known.created->0 is Err ==> action == AuthKeyActionView::Done(
                Err::<AuthKeyStatus, ErrorView>(
                    ErrorView::HeadscaleApi {
                        code: known.created->0->Err_0.code,
                        message: known.created->0->Err_0.message@,
                    },
                ),
            )
            &&& known.created->0 is Ok && known.created->0->Ok_0 is None ==> action
                == AuthKeyActionView::Done(
                Err::<AuthKeyStatus, ErrorView>(
                    ErrorView::HeadscaleApi {
                        code: StatusCode::Internal,
                        message: "CreatePreAuthKey returned no key"@,
                    },
                ),
            )
            &&& known.created->0 is Ok && known.created->0->Ok_0 is Some ==> ({
                let key = known.created->0->Ok_0->0;
                &&& known.saved is None ==> action == (AuthKeyActionView::SaveKey {
                    key: key.key@,
                })
                &&& went_well(known.saved) ==> action == AuthKeyActionView::Done(
                    Ok::<AuthKeyStatus, ErrorView>(AuthKeyStatus::Ready),
                )
                &&& known.saved is Some && known.saved->0 is Err && known.revoked is None
                    ==> action == (AuthKeyActionView::RevokeKey { id: key.id })
                &&& known.saved is Some && known.saved->0 is Err && known.revoked is Some
                    ==> action == AuthKeyActionView::Done(
                    Err::<AuthKeyStatus, ErrorView>(known.saved->0->Err_0@),
                )
            })
        }),
{
    if went_well(known.config) {
        lemma_key_is_there(known);
    }
}

// ---- dropping a key ----

/// The state Secret is read first; where it cannot be, that is a failure. A
/// node that it records is looked up by its number.
pub proof fn recorded_node_is_looked_up(
    known: RotateKnown,
    expiry_secs: u64,
    secret_name: Seq<char>,
)
    ensures
        ({
            let step = rotate_step(known, expiry_secs, secret_name);
            let recorded = went_well(known.state) && registered_node(known.state->0->Ok_0) is Some;
            &&& step.action is ReadState <==> known.state is None
            &&& known.state is Some && known.state->0 is Err && !absent(known.state->0->Err_0)
                ==> step.action == RotateAction::Done(
                Err::<(), Error>(Error::Kube(known.state->0->Err_0)),
            )
            &&& step.action is GetNode <==> recorded && known.clock is Some && known.node is None
            &&& step.action is GetNode ==> Some(step.action->node_id) == registered_node(
                known.state->0->Ok_0,
            )
            &&& step.action is ReadClock ==> known.clock is None
            &&& recorded && known.clock is None ==> step.action is ReadClock
            &&& step.action is ReadConfig <==> !recorded && known.state is Some && (
            known.state->0 is Err ==> absent(known.state->0->Err_0)) && known.config is None
        }),
{
}

/// A registered proxy keeps its Secrets as long as headscale has its node and
/// the node has not expired; else both go, the key first, with a warning. A
/// node that cannot be looked up is a failure, and nothing goes.
pub proof fn secrets_go_with_the_registration(
    known: RotateKnown,
    expiry_secs: u64,
    secret_name: Seq<char>,
    node_id: u64,
)
    requires
        went_well(known.state),
        registered_node(known.state->0->Ok_0) == Some(node_id),
        known.clock is Some,
        known.clock->0 >= 0,
        known.node is Some,
    ensures
        ({
            let step = rotate_step(known, expiry_secs, secret_name);
            let node = known.node->0;
            let lost = (node is Err && node->Err_0.code == StatusCode::NotFound) || (node is Ok
                && node->Ok_0 is Some && 0 < node->Ok_0->0 < known.clock->0);
            &&& node is Err && node->Err_0.code != StatusCode::NotFound ==> step.action
                == RotateAction::Done(Err::<(), Error>(Error::HeadscaleApi(node->Err_0)))
            &&& node is Ok && !lost ==> step.action == RotateAction::Done(Ok::<(), Error>(()))
            &&& lost && known.config_deleted is None ==> step.action is DeleteConfigSecret
                && step.notices.len() == 1 && step.notices[0] == (NoticeView::Warning {
                reason: "ProxyRegistrationLost"@,
                message: "headscale no longer accepts node "@ + decimal(node_id as int)
                    + "; rotating the auth key and resetting proxy state so it can re-register"@,
            })
            &&& lost && known.config_deleted is Some && known.config_deleted->0 is Err
                ==> step.action == RotateAction::Done(
                Err::<(), Error>(known.config_deleted->0->Err_0),
            )
            &&& lost && went_well(known.config_deleted) && known.state_deleted is None
                ==> step.action is DeleteStateSecret
            &&& lost && went_well(known.config_deleted) && known.state_deleted is Some
                ==> step.action == RotateAction::Done(known.state_deleted->0)
        }),
{
}

/// The key of a proxy that never registered goes exactly where it is past its
/// time, with a warning; one that does not exist, or whose age is not known,
/// is left.
pub proof fn unused_key_goes_when_it_is_too_old(
    known: RotateKnown,
    expiry_secs: u64,
    secret_name: Seq<char>,
)
    requires
        known.state is Some,
        known.state->0 is Err ==> absent(known.state->0->Err_0),
        known.state->0 is Ok ==> registered_node(known.state->0->Ok_0) is None,
        known.config is Some,
        expiry_secs <= i64::MAX,
    ensures
        ({
            let step = rotate_step(known, expiry_secs, secret_name);
            let made = known.config->0->Ok_0.metadata.creation_timestamp;
            &&& known.config->0 is Err ==> step.action == RotateAction::Done(
                if absent(known.config->0->Err_0) {
                    Ok::<(), Error>(())
                } else {
                    Err(Error::Kube(known.config->0->Err_0))
                },
            )
            &&& known.config->0 is Ok && made is None ==> step.action == RotateAction::Done(
                Ok::<(), Error>(()),
            )
            &&& known.config->0 is Ok && made is Some && known.clock is None ==> step.action
                is ReadClock
            &&& known.config->0 is Ok && made is Some && known.clock is Some && known.clock->0 >= 0
                ==> ({
                let old = known.clock->0 - made->0 > expiry_secs;
                &&& !old ==> step.action == RotateAction::Done(Ok::<(), Error>(()))
                &&& old && known.config_deleted is None ==> step.action is DeleteConfigSecret
                    && step.notices.len() == 1 && step.notices[0] == (NoticeView::Warning {
                    reason: "AuthKeyExpired"@,
                    message: "auth key in Secret '"@ + secret_name
                        + "' expired before the proxy ever registered; rotating it"@,
                })
                &&& old && known.config_deleted is Some ==> step.action == RotateAction::Done(
                    known.config_deleted->0,
                )
            })
        }),
{
}

// ---- the existing key ----

/// The key that exists is the one in the Secret; a Secret that is not there is
/// no failure, and any other failure is passed on.
pub proof fn existing_key_is_read_from_its_secret(
    key: Result<Option<String>, Error>,
    answer: Result<Secret, KubeError>,
)
    requires
        is_existing_key(key, answer),
    ensures
        key is Ok <==> answer is Ok || absent(answer->Err_0),
        key is Ok && key->Ok_0 is Some ==> answer is Ok && holds(
            answer->Ok_0,
            "key"@,
            encode_utf8(key->Ok_0->0@),
        ) && key->Ok_0->0@.len() > 0,
        key is Ok && key->Ok_0 is None && answer is Ok ==> forall|text: Seq<char>|
            text.len() > 0 ==> !#[trigger] holds(answer->Ok_0, "key"@, encode_utf8(text)),
        key is Err ==> key->Err_0 == Error::Kube(answer->Err_0),
{
    if answer is Ok {
        let secret = answer->Ok_0;
        match auth_key_in(secret) {
            Some(text) => {
                key_is_the_text_of_its_secret(secret, text);
            },
            None => {
                assert forall|text: Seq<char>| text.len() > 0 implies !#[trigger] holds(
                    secret,
                    "key"@,
                    encode_utf8(text),
                ) by {
                    key_is_the_text_of_its_secret(secret, text);
                }
            },
        }
    }
}

} // verus!
