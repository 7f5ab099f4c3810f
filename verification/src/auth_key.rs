//! The life of the pre-auth key with which a proxy registers.
//!
//! The key is needed until the proxy has joined the tailnet. But a proxy can
//! lose its registration, when its node is deleted or expires, and then it
//! needs a working key again. `rotate_stale_auth_key` finds keys that can never
//! work again and drops them, so that `ensure_auth_key` makes a fresh one.

use crate::error::{clone_result, Error, ErrorView, KubeError, Status, StatusCode};
use crate::objects::{text_of, texts_of, Secret};
use crate::step::{noting, quietly, warning, Step, StepView};
use crate::support::{read_node_id, read_secret_string, registered_node, secret_text};
use crate::text::{decimal, decimal_u64, join3};
use vstd::prelude::*;
use vstd::string::*;

verus! {

// ---- time ----

/// The time of a clock in seconds since the epoch, not below zero.
pub open spec fn epoch_secs(clock: i64) -> i64 {
    if clock < 0 {
        0
    } else {
        clock
    }
}

/// The time of a clock in seconds since the epoch, not below zero.
pub fn now_epoch_secs(clock: i64) -> (now: i64)
    ensures
        now == epoch_secs(clock),
{
    if clock < 0 {
        0
    } else {
        clock
    }
}

/// When a key that is made now expires. A time that cannot be told is as far
/// off as possible.
pub open spec fn expiration_of(clock: i64, expiry_secs: u64) -> i64 {
    if 0 <= clock + expiry_secs <= i64::MAX {
        (clock + expiry_secs) as i64
    } else {
        i64::MAX
    }
}

/// When a key that is made now expires.
pub fn expiration_secs(clock: i64, expiry_secs: u64) -> (expiration: i64)
    ensures
        expiration == expiration_of(clock, expiry_secs),
{
    let sum: i128 = clock as i128 + expiry_secs as i128;
    if 0 <= sum && sum <= i64::MAX as i128 {
        sum as i64
    } else {
        i64::MAX
    }
}

/// Whether a key that was made at `created` is past its time.
pub open spec fn key_expired(created: i64, expiry_secs: u64, clock: i64) -> bool {
    let window = if expiry_secs <= i64::MAX {
        expiry_secs as int
    } else {
        i64::MAX as int
    };
    created + window < epoch_secs(clock)
}

/// Whether a key that was made at `created` is past its time.
pub fn is_key_expired(created: i64, expiry_secs: u64, clock: i64) -> (expired: bool)
    ensures
        expired == key_expired(created, expiry_secs, clock),
{
    let window: i64 = if expiry_secs <= i64::MAX as u64 {
        expiry_secs as i64
    } else {
        i64::MAX
    };
    (created as i128 + window as i128) < now_epoch_secs(clock) as i128
}

/// Whether the expiry of a node has passed. No expiry, or zero, means never.
pub open spec fn node_expired(expiry: Option<i64>, clock: i64) -> bool {
    match expiry {
        Some(seconds) => 0 < seconds < epoch_secs(clock),
        None => false,
    }
}

// ---- the key in its Secret ----

/// The auth key in a config Secret: text that is not empty.
pub open spec fn auth_key_in(secret: Secret) -> Option<Seq<char>> {
    match secret_text(secret, "key"@) {
        Some(key) => if key.len() > 0 {
            Some(key)
        } else {
            None
        },
        None => None,
    }
}

/// Reads the auth key in a config Secret.
pub fn extract_auth_key(secret: &Secret) -> (key: Option<String>)
    ensures
        text_of(key) == auth_key_in(*secret),
{
    match read_secret_string(secret, "key") {
        Some(key) => if key.as_str().is_empty() {
            None
        } else {
            Some(key)
        },
        None => None,
    }
}

/// Whether `key` is the key that a Secret was found to hold: none where there
/// is no such Secret.
pub open spec fn is_existing_key(
    key: Result<Option<String>, Error>,
    answer: Result<Secret, KubeError>,
) -> bool {
    match answer {
        Ok(secret) => key is Ok && text_of(key->Ok_0) == auth_key_in(secret),
        Err(e) => if e.not_found() {
            key == Ok::<Option<String>, Error>(None)
        } else {
            key == Err::<Option<String>, Error>(Error::Kube(e))
        },
    }
}

/// Reads the auth key from the answer to the lookup of its Secret.
pub fn existing_auth_key(answer: &Result<Secret, KubeError>) -> (key: Result<Option<String>, Error>)
    ensures
        is_existing_key(key, *answer),
{
    match answer {
        Ok(secret) => Ok(extract_auth_key(secret)),
        Err(e) => if e.is_not_found() {
            Ok(None)
        } else {
            Err(Error::Kube(e.clone()))
        },
    }
}

// ---- making a key ----

/// Whether a key is there, or a user has to appear first.
#[derive(Debug, Clone, Copy, PartialEq, Eq, Structural)]
pub enum AuthKeyStatus {
    Ready,
    WaitingForUser,
}

/// The key that a proxy needs.
#[derive(Debug, PartialEq, Eq)]
pub struct AuthKeyRequest {
    pub user: Option<String>,
    pub managed_key_tags: Vec<String>,
    /// Tag that the operator assigns, put behind the others.
    pub auto_tag: Option<String>,
    pub expiry_secs: u64,
    pub reusable: bool,
    /// Whether headscale drops the node once it is offline.
    pub ephemeral: bool,
}

/// What a request for a key says.
pub struct AuthKeyRequestView {
    pub user: Option<Seq<char>>,
    pub managed_key_tags: Seq<Seq<char>>,
    pub auto_tag: Option<Seq<char>>,
    pub expiry_secs: u64,
    pub reusable: bool,
    pub ephemeral: bool,
}

impl View for AuthKeyRequest {
    type V = AuthKeyRequestView;

    open spec fn view(&self) -> AuthKeyRequestView {
        AuthKeyRequestView {
            user: text_of(self.user),
            managed_key_tags: texts_of(self.managed_key_tags@),
            auto_tag: text_of(self.auto_tag),
            expiry_secs: self.expiry_secs,
            reusable: self.reusable,
            ephemeral: self.ephemeral,
        }
    }
}

/// The tags of a key.
pub open spec fn key_tags(request: AuthKeyRequestView) -> Seq<Seq<char>> {
    match request.auto_tag {
        Some(tag) => request.managed_key_tags.push(tag),
        None => request.managed_key_tags,
    }
}

/// A key that headscale made.
#[derive(Debug, PartialEq, Eq)]
pub struct PreAuthKey {
    pub id: u64,
    pub key: String,
}

/// What is known while a key is made sure of.
#[derive(Debug)]
pub struct AuthKeyKnown {
    pub config: Option<Result<Secret, KubeError>>,
    /// Seconds since the epoch.
    pub clock: Option<i64>,
    /// The users of the wanted name.
    pub users: Option<Result<Vec<u64>, Status>>,
    /// The key that headscale made, where its answer holds one.
    pub created: Option<Result<Option<PreAuthKey>, Status>>,
    /// Whether the key could be put into the config Secret.
    pub saved: Option<Result<(), Error>>,
    /// Whether headscale took the key back.
    pub revoked: Option<Result<(), Status>>,
}

impl AuthKeyKnown {
    /// Nothing is known.
    pub fn nothing() -> (known: Self)
        ensures
            known == (AuthKeyKnown {
                config: None,
                clock: None,
                users: None,
                created: None,
                saved: None,
                revoked: None,
            }),
    {
        AuthKeyKnown {
            config: None,
            clock: None,
            users: None,
            created: None,
            saved: None,
            revoked: None,
        }
    }
}

/// What making sure of a key asks for.
#[derive(Debug)]
pub enum AuthKeyAction {
    ReadConfig,
    ReadClock,
    ListUsers { name: String },
    CreateKey {
        user: u64,
        reusable: bool,
        ephemeral: bool,
        expiration_secs: i64,
        acl_tags: Vec<String>,
    },
    SaveKey { key: String },
    RevokeKey { id: u64 },
    Done(Result<AuthKeyStatus, Error>),
}

/// What an action of making sure of a key says.
pub enum AuthKeyActionView {
    ReadConfig,
    ReadClock,
    ListUsers { name: Seq<char> },
    CreateKey {
        user: u64,
        reusable: bool,
        ephemeral: bool,
        expiration_secs: i64,
        acl_tags: Seq<Seq<char>>,
    },
    SaveKey { key: Seq<char> },
    RevokeKey { id: u64 },
    Done(Result<AuthKeyStatus, ErrorView>),
}

impl View for AuthKeyAction {
    type V = AuthKeyActionView;

    open spec fn view(&self) -> AuthKeyActionView {
        match self {
            AuthKeyAction::ReadConfig => AuthKeyActionView::ReadConfig,
            AuthKeyAction::ReadClock => AuthKeyActionView::ReadClock,
            AuthKeyAction::ListUsers { name } => AuthKeyActionView::ListUsers { name: name@ },
            AuthKeyAction::CreateKey { user, reusable, ephemeral, expiration_secs, acl_tags } =>
                AuthKeyActionView::CreateKey {
                user: *user,
                reusable: *reusable,
                ephemeral: *ephemeral,
                expiration_secs: *expiration_secs,
                acl_tags: texts_of(acl_tags@),
            },
            AuthKeyAction::SaveKey { key } => AuthKeyActionView::SaveKey { key: key@ },
            AuthKeyAction::RevokeKey { id } => AuthKeyActionView::RevokeKey { id: *id },
            AuthKeyAction::Done(result) => AuthKeyActionView::Done(
                match *result {
                    Ok(status) => Ok(status),
                    Err(e) => Err(e@),
                },
            ),
        }
    }
}

/// The end with an error.
pub open spec fn key_failed(error: ErrorView) -> StepView<AuthKeyActionView> {
    quietly(AuthKeyActionView::Done(Err(error)))
}

/// The end with a status.
pub open spec fn key_done(status: AuthKeyStatus) -> AuthKeyActionView {
    AuthKeyActionView::Done(Ok(status))
}

/// What an error of the API server says.
pub open spec fn kube_failure(e: KubeError) -> ErrorView {
    ErrorView::Kube { api_code: e.api_code, text: e.text@ }
}

/// What an error of headscale says.
pub open spec fn api_failure(s: Status) -> ErrorView {
    ErrorView::HeadscaleApi { code: s.code, message: s.message@ }
}

/// A key is made for `user` and put into the config Secret. A key that cannot
/// be put there is taken back before the failure is reported.
pub open spec fn mint_step(
    known: AuthKeyKnown,
    request: AuthKeyRequestView,
    user: u64,
    clock: i64,
) -> StepView<AuthKeyActionView> {
    match known.created {
        None => quietly(
            AuthKeyActionView::CreateKey {
                user,
                reusable: request.reusable,
                ephemeral: request.ephemeral,
                expiration_secs: expiration_of(clock, request.expiry_secs),
                acl_tags: key_tags(request),
            },
        ),
        Some(Err(status)) => key_failed(api_failure(status)),
        Some(Ok(None)) => key_failed(
            ErrorView::HeadscaleApi {
                code: StatusCode::Internal,
                message: "CreatePreAuthKey returned no key"@,
            },
        ),
        Some(Ok(Some(key))) => match known.saved {
            None => quietly(AuthKeyActionView::SaveKey { key: key.key@ }),
            Some(Ok(())) => quietly(key_done(AuthKeyStatus::Ready)),
            Some(Err(e)) => match known.revoked {
                None => quietly(AuthKeyActionView::RevokeKey { id: key.id }),
                Some(_) => key_failed(e@),
            },
        },
    }
}

/// The sentence of the warning that a user is missing.
pub open spec fn missing_user_words(user: Seq<char>) -> Seq<char> {
    "headscale user '"@ + user
        + "' does not exist; create it in headscale before this proxy can be provisioned"@
}

/// How a key is made sure of: the one in the config Secret is kept; else one
/// is made, for the user of the wanted name where one is wanted.
pub open spec fn auth_key_step(known: AuthKeyKnown, request: AuthKeyRequestView) -> StepView<
    AuthKeyActionView,
> {
    match known.config {
        None => quietly(AuthKeyActionView::ReadConfig),
        Some(answer) => if answer is Err && !answer->Err_0.not_found() {
            key_failed(kube_failure(answer->Err_0))
        } else if answer is Ok && auth_key_in(answer->Ok_0) is Some {
            quietly(key_done(AuthKeyStatus::Ready))
        } else {
            match known.clock {
                None => quietly(AuthKeyActionView::ReadClock),
                Some(clock) => match request.user {
                    None => mint_step(known, request, 0, clock),
                    Some(name) => match known.users {
                        None => quietly(AuthKeyActionView::ListUsers { name }),
                        Some(Err(status)) => key_failed(api_failure(status)),
                        Some(Ok(ids)) => if ids@.len() == 0 {
                            noting(
                                warning("UserNotFound"@, missing_user_words(name)),
                                key_done(AuthKeyStatus::WaitingForUser),
                            )
                        } else {
                            mint_step(known, request, ids@[0], clock)
                        },
                    },
                },
            }
        },
    }
}

/// Copies a list of texts.
pub fn clone_texts(texts: &Vec<String>) -> (copy: Vec<String>)
    ensures
        texts_of(copy@) == texts_of(texts@),
{
    let mut copy: Vec<String> = Vec::new();
    let mut i: usize = 0;
    while i < texts.len()
        invariant
            i <= texts@.len(),
            copy@.len() == i,
            forall|k: int| 0 <= k < i ==> copy@[k]@ == texts@[k]@,
        decreases texts@.len() - i,
    {
        copy.push(texts[i].clone());
        i = i + 1;
    }
    proof {
        assert(texts_of(copy@) =~= texts_of(texts@));
    }
    copy
}

fn mint(known: &AuthKeyKnown, request: &AuthKeyRequest, user: u64, clock: i64) -> (step: Step<
    AuthKeyAction,
>)
    ensures
        step@ == mint_step(*known, request@, user, clock),
{
    match &known.created {
        None => {
            let mut acl_tags = clone_texts(&request.managed_key_tags);
            if let Some(tag) = &request.auto_tag {
                let ghost before = acl_tags@;
                acl_tags.push(tag.clone());
                proof {
                    assert(texts_of(acl_tags@) =~= texts_of(before).push(tag@));
                }
            }
            Step::quiet(
                AuthKeyAction::CreateKey {
                    user,
                    reusable: request.reusable,
                    ephemeral: request.ephemeral,
                    expiration_secs: expiration_secs(clock, request.expiry_secs),
                    acl_tags,
                },
            )
        },
        Some(Err(status)) => Step::quiet(
            AuthKeyAction::Done(Err(Error::HeadscaleApi(status.clone()))),
        ),
        Some(Ok(None)) => {
            let status = Status {
                code: StatusCode::Internal,
                message: String::from_str("CreatePreAuthKey returned no key"),
            };
            Step::quiet(AuthKeyAction::Done(Err(Error::HeadscaleApi(status))))
        },
        Some(Ok(Some(key))) => match &known.saved {
            None => Step::quiet(AuthKeyAction::SaveKey { key: key.key.clone() }),
            Some(Ok(())) => Step::quiet(AuthKeyAction::Done(Ok(AuthKeyStatus::Ready))),
            Some(Err(e)) => match &known.revoked {
                None => Step::quiet(AuthKeyAction::RevokeKey { id: key.id }),
                Some(_) => Step::quiet(AuthKeyAction::Done(Err(e.clone()))),
            },
        },
    }
}

/// Decides the next step of making sure of a key.
pub fn ensure_auth_key(known: &AuthKeyKnown, request: &AuthKeyRequest) -> (step: Step<AuthKeyAction>)
    ensures
        step@ == auth_key_step(*known, request@),
{
    let answer = match &known.config {
        None => {
            return Step::quiet(AuthKeyAction::ReadConfig);
        },
        Some(answer) => answer,
    };
    match existing_auth_key(answer) {
        Err(e) => {
            return Step::quiet(AuthKeyAction::Done(Err(e)));
        },
        Ok(Some(_)) => {
            return Step::quiet(AuthKeyAction::Done(Ok(AuthKeyStatus::Ready)));
        },
        Ok(None) => {},
    }
    let clock: i64 = match known.clock {
        None => {
            return Step::quiet(AuthKeyAction::ReadClock);
        },
        Some(clock) => clock,
    };
    match &request.user {
        None => mint(known, request, 0, clock),
        Some(name) => match &known.users {
            None => Step::quiet(AuthKeyAction::ListUsers { name: name.clone() }),
            Some(Err(status)) => Step::quiet(
                AuthKeyAction::Done(Err(Error::HeadscaleApi(status.clone()))),
            ),
            Some(Ok(ids)) => if ids.len() == 0 {
                Step::warned(
                    "UserNotFound",
                    join3(
                        "headscale user '",
                        name.as_str(),
                        "' does not exist; create it in headscale before this proxy can be provisioned",
                    ),
                    AuthKeyAction::Done(Ok(AuthKeyStatus::WaitingForUser)),
                )
            } else {
                mint(known, request, ids[0], clock)
            },
        },
    }
}

/// A key that is there is kept: headscale is not asked for anything.
pub proof fn existing_key_is_kept(known: AuthKeyKnown, request: AuthKeyRequestView)
    requires
        known.config is Some,
        known.config->0 is Ok,
        auth_key_in(known.config->0->Ok_0) is Some,
    ensures
        auth_key_step(known, request) == quietly(key_done(AuthKeyStatus::Ready)),
{
}

/// A key that cannot be saved is taken back from headscale, and then, whatever
/// headscale answers, the failure to save is reported.
pub proof fn unsaved_key_is_revoked_first(
    before: AuthKeyKnown,
    request: AuthKeyRequestView,
    failure: Error,
    answer: Result<(), Status>,
)
    requires
        auth_key_step(before, request).action is SaveKey,
    ensures
        ({
            let failed = AuthKeyKnown { saved: Some(Err(failure)), revoked: None, ..before };
            let answered = AuthKeyKnown { revoked: Some(answer), ..failed };
            &&& before.created matches Some(Ok(Some(key))) && auth_key_step(failed, request)
                == quietly(AuthKeyActionView::RevokeKey { id: key.id })
            &&& auth_key_step(answered, request) == key_failed(failure@)
        }),
{
}

/// A key that was saved is kept in headscale.
pub proof fn saved_key_is_kept(before: AuthKeyKnown, request: AuthKeyRequestView)
    requires
        auth_key_step(before, request).action is SaveKey,
    ensures
        auth_key_step(AuthKeyKnown { saved: Some(Ok(())), ..before }, request) == quietly(
            key_done(AuthKeyStatus::Ready),
        ),
{
}

/// A key is taken back only where it could not be saved.
pub proof fn only_unsaved_keys_are_revoked(known: AuthKeyKnown, request: AuthKeyRequestView, id: u64)
    requires
        auth_key_step(known, request).action == (AuthKeyActionView::RevokeKey { id }),
    ensures
        known.saved is Some,
        known.saved->0 is Err,
        known.revoked is None,
        known.created is Some,
        known.created->0 is Ok,
        known.created->0->Ok_0 is Some,
        known.created->0->Ok_0->0.id == id,
{
}

/// Nothing is asked for that is known already, so that making sure of a key
/// comes to an end.
pub proof fn auth_key_asks_once(known: AuthKeyKnown, request: AuthKeyRequestView)
    ensures
        ({
            let action = auth_key_step(known, request).action;
            &&& action is ReadConfig ==> known.config is None
            &&& action is ReadClock ==> known.clock is None
            &&& action is ListUsers ==> known.users is None
            &&& action is CreateKey ==> known.created is None
            &&& action is SaveKey ==> known.saved is None
            &&& action is RevokeKey ==> known.revoked is None
        }),
{
}

/// Where no key is there, one is made: for the first user of the wanted name,
/// or for none, with the wanted tags and properties.
pub proof fn missing_key_is_made(known: AuthKeyKnown, request: AuthKeyRequestView, user: u64)
    requires
        known.config is Some,
        known.config->0 is Err ==> known.config->0->Err_0.not_found(),
        known.config->0 is Ok ==> auth_key_in(known.config->0->Ok_0) is None,
        known.clock is Some,
        known.created is None,
        match request.user {
            Some(_) => known.users is Some && known.users->0 is Ok && known.users->0->Ok_0@.len() > 0
                && known.users->0->Ok_0@[0] == user,
            None => user == 0,
        },
    ensures
        auth_key_step(known, request) == quietly(
            AuthKeyActionView::CreateKey {
                user,
                reusable: request.reusable,
                ephemeral: request.ephemeral,
                expiration_secs: expiration_of(known.clock->0, request.expiry_secs),
                acl_tags: key_tags(request),
            },
        ),
{
}

// ---- dropping a key that can never work again ----

/// What is known while a stale key is looked for.
#[derive(Debug)]
pub struct RotateKnown {
    pub state: Option<Result<Secret, KubeError>>,
    /// Seconds since the epoch.
    pub clock: Option<i64>,
    /// The expiry of the registered node in seconds since the epoch, where it
    /// has one.
    pub node: Option<Result<Option<i64>, Status>>,
    pub config: Option<Result<Secret, KubeError>>,
    pub config_deleted: Option<Result<(), Error>>,
    pub state_deleted: Option<Result<(), Error>>,
}

impl RotateKnown {
    /// Nothing is known.
    pub fn nothing() -> (known: Self)
        ensures
            known == (RotateKnown {
                state: None,
                clock: None,
                node: None,
                config: None,
                config_deleted: None,
                state_deleted: None,
            }),
    {
        RotateKnown {
            state: None,
            clock: None,
            node: None,
            config: None,
            config_deleted: None,
            state_deleted: None,
        }
    }
}

/// What looking for a stale key asks for.
#[derive(Debug)]
pub enum RotateAction {
    ReadState,
    ReadClock,
    GetNode { node_id: u64 },
    ReadConfig,
    DeleteConfigSecret,
    DeleteStateSecret,
    Done(Result<(), Error>),
}

impl View for RotateAction {
    type V = RotateAction;

    open spec fn view(&self) -> RotateAction {
        *self
    }
}

/// Whether headscale no longer accepts a node: it does not know it, or its
/// expiry has passed.
pub open spec fn registration_lost(node: Result<Option<i64>, Status>, clock: i64) -> bool {
    match node {
        Ok(expiry) => node_expired(expiry, clock),
        Err(status) => status.code == StatusCode::NotFound,
    }
}

/// The sentence of the warning on a lost registration.
pub open spec fn lost_words(node_id: u64) -> Seq<char> {
    "headscale no longer accepts node "@ + decimal(node_id as int)
        + "; rotating the auth key and resetting proxy state so it can re-register"@
}

/// The sentence of the warning on a key that was never used in time.
pub open spec fn expired_words(config_secret_name: Seq<char>) -> Seq<char> {
    "auth key in Secret '"@ + config_secret_name
        + "' expired before the proxy ever registered; rotating it"@
}

/// A registered proxy: where headscale no longer accepts its node, both
/// Secrets are dropped.
pub open spec fn rotate_registered_step(known: RotateKnown, node_id: u64) -> StepView<RotateAction> {
    match known.clock {
        None => quietly(RotateAction::ReadClock),
        Some(clock) => match known.node {
            None => quietly(RotateAction::GetNode { node_id }),
            Some(node) => if node is Err && node->Err_0.code != StatusCode::NotFound {
                quietly(RotateAction::Done(Err(Error::HeadscaleApi(node->Err_0))))
            } else if !registration_lost(node, clock) {
                quietly(RotateAction::Done(Ok(())))
            } else {
                match known.config_deleted {
                    None => noting(
                        warning("ProxyRegistrationLost"@, lost_words(node_id)),
                        RotateAction::DeleteConfigSecret,
                    ),
                    Some(Err(e)) => quietly(RotateAction::Done(Err(e))),
                    Some(Ok(())) => match known.state_deleted {
                        None => quietly(RotateAction::DeleteStateSecret),
                        Some(result) => quietly(RotateAction::Done(result)),
                    },
                }
            },
        },
    }
}

/// A proxy that never registered: a key past its time is dropped.
pub open spec fn rotate_unregistered_step(
    known: RotateKnown,
    expiry_secs: u64,
    config_secret_name: Seq<char>,
) -> StepView<RotateAction> {
    match known.config {
        None => quietly(RotateAction::ReadConfig),
        Some(Err(e)) => quietly(
            RotateAction::Done(
                if e.not_found() {
                    Ok(())
                } else {
                    Err(Error::Kube(e))
                },
            ),
        ),
        Some(Ok(secret)) => match secret.metadata.creation_timestamp {
            None => quietly(RotateAction::Done(Ok(()))),
            Some(created) => match known.clock {
                None => quietly(RotateAction::ReadClock),
                Some(clock) => if !key_expired(created, expiry_secs, clock) {
                    quietly(RotateAction::Done(Ok(())))
                } else {
                    match known.config_deleted {
                        None => noting(
                            warning("AuthKeyExpired"@, expired_words(config_secret_name)),
                            RotateAction::DeleteConfigSecret,
                        ),
                        Some(result) => quietly(RotateAction::Done(result)),
                    }
                },
            },
        },
    }
}

/// How a stale key is looked for and dropped.
pub open spec fn rotate_step(
    known: RotateKnown,
    expiry_secs: u64,
    config_secret_name: Seq<char>,
) -> StepView<RotateAction> {
    match known.state {
        None => quietly(RotateAction::ReadState),
        Some(Err(e)) => if e.not_found() {
            rotate_unregistered_step(known, expiry_secs, config_secret_name)
        } else {
            quietly(RotateAction::Done(Err(Error::Kube(e))))
        },
        Some(Ok(secret)) => match registered_node(secret) {
            Some(node_id) => rotate_registered_step(known, node_id),
            None => rotate_unregistered_step(known, expiry_secs, config_secret_name),
        },
    }
}

fn rotate_registered(known: &RotateKnown, node_id: u64) -> (step: Step<RotateAction>)
    ensures
        step@ == rotate_registered_step(*known, node_id),
{
    let clock: i64 = match known.clock {
        None => {
            return Step::quiet(RotateAction::ReadClock);
        },
        Some(clock) => clock,
    };
    let lost = match &known.node {
        None => {
            return Step::quiet(RotateAction::GetNode { node_id });
        },
        Some(Ok(expiry)) => match expiry {
            Some(seconds) => *seconds > 0 && *seconds < now_epoch_secs(clock),
            None => false,
        },
        Some(Err(status)) => if status.code == StatusCode::NotFound {
            true
        } else {
            return Step::quiet(RotateAction::Done(Err(Error::HeadscaleApi(status.clone()))));
        },
    };
    if !lost {
        return Step::quiet(RotateAction::Done(Ok(())));
    }
    match &known.config_deleted {
        None => Step::warned(
            "ProxyRegistrationLost",
            join3(
                "headscale no longer accepts node ",
                decimal_u64(node_id).as_str(),
                "; rotating the auth key and resetting proxy state so it can re-register",
            ),
            RotateAction::DeleteConfigSecret,
        ),
        Some(Err(e)) => Step::quiet(RotateAction::Done(Err(e.clone()))),
        Some(Ok(())) => match &known.state_deleted {
            None => Step::quiet(RotateAction::DeleteStateSecret),
            Some(result) => Step::quiet(RotateAction::Done(clone_result(result))),
        },
    }
}

fn rotate_unregistered(known: &RotateKnown, expiry_secs: u64, config_secret_name: &str) -> (step: Step<
    RotateAction,
>)
    ensures
        step@ == rotate_unregistered_step(*known, expiry_secs, config_secret_name@),
{
    let secret = match &known.config {
        None => {
            return Step::quiet(RotateAction::ReadConfig);
        },
        Some(Err(e)) => {
            return if e.is_not_found() {
                Step::quiet(RotateAction::Done(Ok(())))
            } else {
                Step::quiet(RotateAction::Done(Err(Error::Kube(e.clone()))))
            };
        },
        Some(Ok(secret)) => secret,
    };
    let created: i64 = match secret.metadata.creation_timestamp {
        None => {
            return Step::quiet(RotateAction::Done(Ok(())));
        },
        Some(created) => created,
    };
    let clock: i64 = match known.clock {
        None => {
            return Step::quiet(RotateAction::ReadClock);
        },
        Some(clock) => clock,
    };
    if !is_key_expired(created, expiry_secs, clock) {
        return Step::quiet(RotateAction::Done(Ok(())));
    }
    match &known.config_deleted {
        None => Step::warned(
            "AuthKeyExpired",
            join3(
                "auth key in Secret '",
                config_secret_name,
                "' expired before the proxy ever registered; rotating it",
            ),
            RotateAction::DeleteConfigSecret,
        ),
        Some(result) => Step::quiet(RotateAction::Done(clone_result(result))),
    }
}

/// Decides the next step of looking for a key that can never work again: the
/// key of a proxy that lost its registration, or one that expired before the
/// proxy ever registered.
pub fn rotate_stale_auth_key(known: &RotateKnown, expiry_secs: u64, config_secret_name: &str) -> (step:
    Step<RotateAction>)
    ensures
        step@ == rotate_step(*known, expiry_secs, config_secret_name@),
{
    match &known.state {
        None => Step::quiet(RotateAction::ReadState),
        Some(Err(e)) => if e.is_not_found() {
            rotate_unregistered(known, expiry_secs, config_secret_name)
        } else {
            Step::quiet(RotateAction::Done(Err(Error::Kube(e.clone()))))
        },
        Some(Ok(secret)) => match read_node_id(secret) {
            Some(node_id) => rotate_registered(known, node_id),
            None => rotate_unregistered(known, expiry_secs, config_secret_name),
        },
    }
}

/// The node that a proxy is registered as, as far as its state Secret is known.
pub open spec fn known_node(known: RotateKnown) -> Option<u64> {
    match known.state {
        Some(Ok(secret)) => registered_node(secret),
        _ => None,
    }
}

/// While headscale accepts the node of a proxy, none of its Secrets is deleted.
pub proof fn healthy_registration_is_kept(
    known: RotateKnown,
    expiry_secs: u64,
    config_secret_name: Seq<char>,
)
    requires
        known_node(known) is Some,
        known.clock is Some,
        known.node is Some,
        known.node->0 is Ok,
        !node_expired(known.node->0->Ok_0, known.clock->0),
    ensures
        rotate_step(known, expiry_secs, config_secret_name) == quietly(
            RotateAction::Done(Ok::<(), Error>(())),
        ),
{
}

/// Where headscale no longer accepts the node of a proxy, both its Secrets are
/// deleted, so that it registers anew with a fresh key.
pub proof fn lost_registration_is_reset(
    known: RotateKnown,
    expiry_secs: u64,
    config_secret_name: Seq<char>,
)
    requires
        known_node(known) is Some,
        known.clock is Some,
        known.node is Some,
        registration_lost(known.node->0, known.clock->0),
    ensures
        ({
            let step = rotate_step(known, expiry_secs, config_secret_name);
            &&& known.config_deleted is None ==> step == noting(
                warning("ProxyRegistrationLost"@, lost_words(known_node(known)->0)),
                RotateAction::DeleteConfigSecret,
            )
            &&& known.config_deleted == Some(Ok::<(), Error>(())) && known.state_deleted is None
                ==> step == quietly(RotateAction::DeleteStateSecret)
        }),
{
}

/// A key that is past its time before the proxy ever registered is deleted.
pub proof fn expired_key_is_dropped(
    known: RotateKnown,
    expiry_secs: u64,
    config_secret_name: Seq<char>,
)
    requires
        known.state is Some,
        known.state->0 is Err ==> known.state->0->Err_0.not_found(),
        known_node(known) is None,
        known.config is Some,
        known.config->0 is Ok,
        known.config->0->Ok_0.metadata.creation_timestamp is Some,
        known.clock is Some,
        key_expired(
            known.config->0->Ok_0.metadata.creation_timestamp->0,
            expiry_secs,
            known.clock->0,
        ),
        known.config_deleted is None,
    ensures
        rotate_step(known, expiry_secs, config_secret_name) == noting(
            warning("AuthKeyExpired"@, expired_words(config_secret_name)),
            RotateAction::DeleteConfigSecret,
        ),
{
}

/// The state Secret is dropped only for a registered proxy whose node headscale
/// no longer accepts, and after the config Secret.
pub proof fn state_is_dropped_only_when_lost(
    known: RotateKnown,
    expiry_secs: u64,
    config_secret_name: Seq<char>,
)
    requires
        rotate_step(known, expiry_secs, config_secret_name).action is DeleteStateSecret,
    ensures
        known_node(known) is Some,
        known.clock is Some,
        known.node is Some,
        registration_lost(known.node->0, known.clock->0),
        known.config_deleted is Some,
        known.config_deleted->0 is Ok,
{
}

/// The config Secret is dropped only where the registration is lost, or where
/// the proxy never registered and the key is past its time.
pub proof fn config_is_dropped_only_when_useless(
    known: RotateKnown,
    expiry_secs: u64,
    config_secret_name: Seq<char>,
)
    requires
        rotate_step(known, expiry_secs, config_secret_name).action is DeleteConfigSecret,
    ensures
        known.clock is Some,
        known_node(known) is Some ==> known.node is Some && registration_lost(
            known.node->0,
            known.clock->0,
        ),
        known_node(known) is None ==> known.config is Some && known.config->0 is Ok
            && known.config->0->Ok_0.metadata.creation_timestamp is Some && key_expired(
            known.config->0->Ok_0.metadata.creation_timestamp->0,
            expiry_secs,
            known.clock->0,
        ),
{
}

/// Nothing is asked for that is known already, so that looking for a stale key
/// comes to an end.
pub proof fn rotate_asks_once(known: RotateKnown, expiry_secs: u64, config_secret_name: Seq<char>)
    ensures
        ({
            let action = rotate_step(known, expiry_secs, config_secret_name).action;
            &&& action is ReadState ==> known.state is None
            &&& action is ReadClock ==> known.clock is None
            &&& action is GetNode ==> known.node is None
            &&& action is ReadConfig ==> known.config is None
            &&& action is DeleteConfigSecret ==> known.config_deleted is None
            &&& action is DeleteStateSecret ==> known.state_deleted is None
        }),
{
}

/// A key that was made at a time is not past its time before its expiry.
pub proof fn fresh_key_is_not_expired(clock: i64, expiry_secs: u64, later: i64)
    requires
        clock >= 0,
        later <= clock + expiry_secs,
    ensures
        !key_expired(clock, expiry_secs, later),
{
}

} // verus!
