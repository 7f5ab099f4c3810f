//! What all proxy parents need: reading state Secrets, connecting to the
//! parent's headscale instance, and taking a proxy down.

use crate::error::{clone_result, Error, KubeError, Status, StatusCode};
use crate::instance::HeadscaleInstance;
use crate::json::{parse_text_list, parsed_text_list};
use crate::names::ProxyNames;
use crate::objects::{text_of, ObjectMeta, Secret};
use crate::step::{quietly, warning, Notice, NoticeView, Step, StepView};
use crate::text::{decimal, decimal_u64, join2, join3, join5, parse_u64, parsed_u64, same_text};
use vstd::prelude::*;
use vstd::string::*;
use vstd::utf8::*;

verus! {

// ---- Secrets ----

/// Calls `String::from_utf8` on a copy of some bytes: the text that they
/// encode, where they are valid UTF-8.
#[verifier::external_body]
fn utf8_text(bytes: &Vec<u8>) -> (text: Option<String>)
    ensures
        text is Some <==> valid_utf8(bytes@),
        text is Some ==> text->0@ == decode_utf8(bytes@),
{
    String::from_utf8(bytes.clone()).ok()
}

/// Bytes read as UTF-8, with invalid parts replaced.
pub uninterp spec fn lossy_utf8(bytes: Seq<u8>) -> Seq<char>;

/// Calls `String::from_utf8_lossy`: the text depends on the bytes alone, and
/// is the one that they encode where they are valid UTF-8.
#[verifier::external_body]
fn lossy_text(bytes: &Vec<u8>) -> (text: String)
    ensures
        text@ == lossy_utf8(bytes@),
        valid_utf8(bytes@) ==> text@ == decode_utf8(bytes@),
{
    String::from_utf8_lossy(bytes).into_owned()
}

/// The text under a key of a Secret, where it is text.
pub open spec fn secret_text(secret: Secret, key: Seq<char>) -> Option<Seq<char>> {
    match secret.bytes_of(key) {
        Some(bytes) => if valid_utf8(bytes) {
            Some(decode_utf8(bytes))
        } else {
            None
        },
        None => None,
    }
}

/// The list of texts that is in JSON under a key of a Secret.
pub open spec fn secret_text_list(secret: Secret, key: Seq<char>) -> Option<Seq<Seq<char>>> {
    match secret.bytes_of(key) {
        Some(bytes) => parsed_text_list(bytes),
        None => None,
    }
}

/// The node that a state Secret records, where it is a number.
pub open spec fn registered_node(secret: Secret) -> Option<u64> {
    match secret_text(secret, "device_id"@) {
        Some(text) => parsed_u64(text),
        None => None,
    }
}

/// Reads the text under a key of a Secret.
pub fn read_secret_string(secret: &Secret, key: &str) -> (text: Option<String>)
    ensures
        text_of(text) == secret_text(*secret, key@),
{
    match secret.item(key) {
        Some(bytes) => utf8_text(bytes),
        None => None,
    }
}

/// Reads the list of texts that is in JSON under a key of a Secret.
pub fn read_secret_json(secret: &Secret, key: &str) -> (texts: Option<Vec<String>>)
    ensures
        match texts {
            Some(found) => secret_text_list(*secret, key@) == Some(
                crate::objects::texts_of(found@),
            ),
            None => secret_text_list(*secret, key@) is None,
        },
{
    match secret.item(key) {
        Some(bytes) => parse_text_list(bytes),
        None => None,
    }
}

/// Reads the node that a state Secret records.
pub fn read_node_id(secret: &Secret) -> (node_id: Option<u64>)
    ensures
        node_id == registered_node(*secret),
{
    match read_secret_string(secret, "device_id") {
        Some(text) => parse_u64(text.as_str()),
        None => None,
    }
}

// ---- namespaces ----

/// Whether a namespace is going away, from the answer to its lookup: it is
/// marked for deletion, or gone already.
pub open spec fn namespace_deleting(answer: Result<ObjectMeta, KubeError>) -> Result<bool, Error> {
    match answer {
        Ok(meta) => Ok(meta.deletion_timestamp is Some),
        Err(e) => if e.not_found() {
            Ok(true)
        } else {
            Err(Error::Kube(e))
        },
    }
}

/// Whether a namespace is going away, from the answer to its lookup.
pub fn namespace_is_deleting(answer: &Result<ObjectMeta, KubeError>) -> (deleting: Result<
    bool,
    Error,
>)
    ensures
        deleting == namespace_deleting(*answer),
{
    match answer {
        Ok(meta) => Ok(meta.deletion_timestamp.is_some()),
        Err(e) => if e.is_not_found() {
            Ok(true)
        } else {
            Err(Error::Kube(e.clone()))
        },
    }
}

// ---- taking a proxy down ----

/// Kinds of the resources of a proxy.
#[derive(Debug, Clone, Copy, PartialEq, Eq, Structural)]
pub enum ResourceKind {
    StatefulSet,
    Service,
    Secret,
    ConfigMap,
    NetworkPolicy,
    RoleBinding,
    Role,
    ServiceAccount,
}

/// The resources of a proxy.
pub open spec fn resources_of(names: ProxyNames) -> Seq<(ResourceKind, Seq<char>)> {
    seq![
        (ResourceKind::StatefulSet, names.proxy_name@),
        (ResourceKind::Service, names.wg_service_name@),
        (ResourceKind::Secret, names.config_secret_name@),
        (ResourceKind::Secret, names.state_secret_name@),
        (ResourceKind::ConfigMap, names.serve_configmap_name@),
        (ResourceKind::NetworkPolicy, names.proxy_name@),
        (ResourceKind::RoleBinding, names.proxy_name@),
        (ResourceKind::Role, names.proxy_name@),
        (ResourceKind::ServiceAccount, names.proxy_name@),
    ]
}

/// The resources that are deleted, as far as they exist, when a proxy is taken
/// down.
pub fn proxy_resources(names: &ProxyNames) -> (resources: Vec<(ResourceKind, String)>)
    ensures
        resources@.map_values(|r: (ResourceKind, String)| (r.0, r.1@)) == resources_of(*names),
{
    let mut resources: Vec<(ResourceKind, String)> = Vec::new();
    resources.push((ResourceKind::StatefulSet, names.proxy_name.clone()));
    resources.push((ResourceKind::Service, names.wg_service_name.clone()));
    resources.push((ResourceKind::Secret, names.config_secret_name.clone()));
    resources.push((ResourceKind::Secret, names.state_secret_name.clone()));
    resources.push((ResourceKind::ConfigMap, names.serve_configmap_name.clone()));
    resources.push((ResourceKind::NetworkPolicy, names.proxy_name.clone()));
    resources.push((ResourceKind::RoleBinding, names.proxy_name.clone()));
    resources.push((ResourceKind::Role, names.proxy_name.clone()));
    resources.push((ResourceKind::ServiceAccount, names.proxy_name.clone()));
    proof {
        assert(resources@.map_values(|r: (ResourceKind, String)| (r.0, r.1@)) =~= resources_of(
            *names,
        ));
    }
    resources
}

/// What is known while a proxy is taken down: the answers so far.
#[derive(Debug)]
pub struct DeregisterKnown {
    /// The state Secret.
    pub state: Option<Result<Secret, KubeError>>,
    /// Whether headscale could be connected to.
    pub connected: Option<Result<(), KubeError>>,
    /// Whether headscale deleted the node.
    pub node_deleted: Option<Result<(), Status>>,
    /// Whether the resources were deleted.
    pub cleaned: bool,
}

/// What taking a proxy down asks for.
#[derive(Debug)]
pub enum DeregisterAction {
    ReadState,
    Connect { headscale_ref: String },
    DeleteNode { node_id: u64 },
    DeleteResources,
    Done(Result<(), Error>),
}

/// What an action of taking a proxy down says.
pub enum DeregisterActionView {
    ReadState,
    Connect { headscale_ref: Seq<char> },
    DeleteNode { node_id: u64 },
    DeleteResources,
    Done(Result<(), Error>),
}

impl View for DeregisterAction {
    type V = DeregisterActionView;

    open spec fn view(&self) -> DeregisterActionView {
        match self {
            DeregisterAction::ReadState => DeregisterActionView::ReadState,
            DeregisterAction::Connect { headscale_ref } => DeregisterActionView::Connect {
                headscale_ref: headscale_ref@,
            },
            DeregisterAction::DeleteNode { node_id } => DeregisterActionView::DeleteNode {
                node_id: *node_id,
            },
            DeregisterAction::DeleteResources => DeregisterActionView::DeleteResources,
            DeregisterAction::Done(result) => DeregisterActionView::Done(*result),
        }
    }
}

impl DeregisterKnown {
    /// Nothing is known.
    pub fn nothing() -> (known: Self)
        ensures
            known == (DeregisterKnown {
                state: None,
                connected: None,
                node_deleted: None,
                cleaned: false,
            }),
    {
        DeregisterKnown { state: None, connected: None, node_deleted: None, cleaned: false }
    }

    /// The node to delete, once the state Secret was read: the one that it
    /// records. A Secret that does not exist records none.
    pub open spec fn node(&self) -> Option<u64> {
        match self.state {
            Some(Ok(secret)) => registered_node(secret),
            _ => None,
        }
    }
}

/// The instance that a proxy is registered with: the one that its state Secret
/// records, else `fallback`.
pub open spec fn registered_with(secret: Secret, fallback: Seq<char>) -> Seq<char> {
    match secret_text(secret, "headscale_ref"@) {
        Some(headscale_ref) => headscale_ref,
        None => fallback,
    }
}

/// The sentence of the warning that a node may be left behind.
pub open spec fn orphan_words(node_id: u64, problem: Seq<char>) -> Seq<char> {
    "could not connect to headscale to delete node "@ + decimal(node_id as int) + ": "@ + problem
        + "; the node may remain registered in headscale"@
}

/// The sentence of the warning that headscale would not delete a node.
pub open spec fn undeleted_words(node_id: u64, problem: Seq<char>) -> Seq<char> {
    "could not delete node "@ + decimal(node_id as int) + " from headscale: "@ + problem
        + "; the node may remain registered in headscale"@
}

/// The end of taking a proxy down: delete the resources, after `notices`.
pub open spec fn resources_step(known: DeregisterKnown, notices: Seq<NoticeView>) -> StepView<
    DeregisterActionView,
> {
    if known.cleaned {
        quietly(DeregisterActionView::Done(Ok(())))
    } else {
        StepView { notices, action: DeregisterActionView::DeleteResources }
    }
}

/// How a proxy is taken down: its node is deleted first, where one is
/// registered, then its resources. Without an answer about the state Secret
/// nothing is deleted, so that it can be tried again. Deleting the node is best
/// effort: headscale holds nothing up, neither where it cannot be reached nor
/// where it does not delete the node; either is warned about.
pub open spec fn deregister_step(known: DeregisterKnown, fallback: Seq<char>) -> StepView<
    DeregisterActionView,
> {
    match known.state {
        None => quietly(DeregisterActionView::ReadState),
        Some(Err(e)) => if e.not_found() {
            resources_step(known, Seq::empty())
        } else {
            quietly(DeregisterActionView::Done(Err(Error::Kube(e))))
        },
        Some(Ok(secret)) => match registered_node(secret) {
            None => resources_step(known, Seq::empty()),
            Some(node_id) => match known.connected {
                None => quietly(
                    DeregisterActionView::Connect {
                        headscale_ref: registered_with(secret, fallback),
                    },
                ),
                Some(Err(e)) => resources_step(
                    known,
                    seq![warning("NodeOrphaned"@, orphan_words(node_id, e.text@))],
                ),
                Some(Ok(())) => match known.node_deleted {
                    None => quietly(DeregisterActionView::DeleteNode { node_id }),
                    Some(Err(status)) => if status.code == StatusCode::NotFound {
                        resources_step(known, seq![NoticeView::Deleted])
                    } else {
                        resources_step(
                            known,
                            seq![
                                warning(
                                    "NodeOrphaned"@,
                                    undeleted_words(node_id, status.message@),
                                ),
                            ],
                        )
                    },
                    Some(Ok(())) => resources_step(known, seq![NoticeView::Deleted]),
                },
            },
        },
    }
}

fn resources_quietly(known: &DeregisterKnown) -> (step: Step<DeregisterAction>)
    ensures
        step@ == resources_step(*known, Seq::empty()),
{
    if known.cleaned {
        Step::quiet(DeregisterAction::Done(Ok(())))
    } else {
        Step::quiet(DeregisterAction::DeleteResources)
    }
}

fn resources_noted(known: &DeregisterKnown, notice: Notice) -> (step: Step<DeregisterAction>)
    ensures
        step@ == resources_step(*known, seq![notice@]),
{
    if known.cleaned {
        Step::quiet(DeregisterAction::Done(Ok(())))
    } else {
        Step::noted(notice, DeregisterAction::DeleteResources)
    }
}

/// Decides the next step of taking a proxy down.
pub fn deregister_and_cleanup(known: &DeregisterKnown, headscale_ref_fallback: &str) -> (step: Step<
    DeregisterAction,
>)
    ensures
        step@ == deregister_step(*known, headscale_ref_fallback@),
{
    match &known.state {
        None => Step::quiet(DeregisterAction::ReadState),
        Some(Err(e)) => if e.is_not_found() {
            resources_quietly(known)
        } else {
            Step::quiet(DeregisterAction::Done(Err(Error::Kube(e.clone()))))
        },
        Some(Ok(secret)) => match read_node_id(secret) {
            None => resources_quietly(known),
            Some(node_id) => match &known.connected {
                None => {
                    let headscale_ref = match read_secret_string(secret, "headscale_ref") {
                        Some(headscale_ref) => headscale_ref,
                        None => String::from_str(headscale_ref_fallback),
                    };
                    Step::quiet(DeregisterAction::Connect { headscale_ref })
                },
                Some(Err(e)) => {
                    let message = join5(
                        "could not connect to headscale to delete node ",
                        decimal_u64(node_id).as_str(),
                        ": ",
                        e.text.as_str(),
                        "; the node may remain registered in headscale",
                    );
                    resources_noted(
                        known,
                        Notice::Warning(crate::step::Warning { reason: "NodeOrphaned", message }),
                    )
                },
                Some(Ok(())) => match &known.node_deleted {
                    None => Step::quiet(DeregisterAction::DeleteNode { node_id }),
                    Some(Err(status)) => if status.code == StatusCode::NotFound {
                        resources_noted(known, Notice::Deleted)
                    } else {
                        let message = join5(
                            "could not delete node ",
                            decimal_u64(node_id).as_str(),
                            " from headscale: ",
                            status.message.as_str(),
                            "; the node may remain registered in headscale",
                        );
                        resources_noted(
                            known,
                            Notice::Warning(
                                crate::step::Warning { reason: "NodeOrphaned", message },
                            ),
                        )
                    },
                    Some(Ok(())) => resources_noted(known, Notice::Deleted),
                },
            },
        },
    }
}

/// Where the state Secret cannot be read, nothing is deleted and the failure
/// is reported, so that it is tried again.
pub proof fn unreadable_state_deletes_nothing(known: DeregisterKnown, fallback: Seq<char>)
    requires
        known.state is Some,
        known.state->0 is Err,
        !known.state->0->Err_0.not_found(),
    ensures
        deregister_step(known, fallback) == quietly(
            DeregisterActionView::Done(Err::<(), Error>(Error::Kube(known.state->0->Err_0))),
        ),
{
}

/// The resources, and with them the record of the node, are deleted only after
/// the state Secret was read or found missing, and only where no node is
/// recorded, headscale could not be reached, or headscale was asked to delete
/// it.
pub proof fn resources_outlive_the_node(known: DeregisterKnown, fallback: Seq<char>)
    requires
        deregister_step(known, fallback).action is DeleteResources,
    ensures
        known.state is Some,
        known.state->0 is Err ==> known.state->0->Err_0.not_found(),
        known.node() is None || (known.connected is Some && (known.connected->0 is Err
            || known.node_deleted is Some)),
{
}

/// A headscale that cannot be reached does not hold up taking a proxy down: it
/// is warned that the node may stay, and the resources are deleted.
pub proof fn unreachable_headscale_holds_nothing_up(
    known: DeregisterKnown,
    fallback: Seq<char>,
    e: KubeError,
)
    requires
        known.node() is Some,
        known.connected == Some(Err::<(), KubeError>(e)),
        !known.cleaned,
    ensures
        deregister_step(known, fallback) == (StepView {
            notices: seq![warning("NodeOrphaned"@, orphan_words(known.node()->0, e.text@))],
            action: DeregisterActionView::DeleteResources,
        }),
{
}

/// A node that headscale does not delete does not hold up taking a proxy down:
/// it is warned that the node may stay, and the resources are deleted.
pub proof fn undeleted_node_holds_nothing_up(
    known: DeregisterKnown,
    fallback: Seq<char>,
    status: Status,
)
    requires
        known.node() is Some,
        known.connected == Some(Ok::<(), KubeError>(())),
        known.node_deleted == Some(Err::<(), Status>(status)),
        status.code != StatusCode::NotFound,
        !known.cleaned,
    ensures
        deregister_step(known, fallback) == (StepView {
            notices: seq![
                warning("NodeOrphaned"@, undeleted_words(known.node()->0, status.message@)),
            ],
            action: DeregisterActionView::DeleteResources,
        }),
{
}

/// Only a state Secret that cannot be read makes taking a proxy down fail.
pub proof fn only_the_state_can_fail(known: DeregisterKnown, fallback: Seq<char>, e: Error)
    requires
        deregister_step(known, fallback).action == DeregisterActionView::Done(Err::<(), Error>(e)),
    ensures
        known.state is Some,
        known.state->0 is Err,
        e == Error::Kube(known.state->0->Err_0),
{
}

/// Nothing is asked for that is known already, so that taking a proxy down
/// comes to an end.
pub proof fn deregister_asks_once(known: DeregisterKnown, fallback: Seq<char>)
    ensures
        ({
            let action = deregister_step(known, fallback).action;
            &&& action is ReadState ==> known.state is None
            &&& action is Connect ==> known.connected is None
            &&& action is DeleteNode ==> known.node_deleted is None
            &&& action is DeleteResources ==> !known.cleaned
        }),
{
}

// ---- connecting to headscale ----

/// What is known while connecting to a headscale instance.
#[derive(Debug)]
pub struct ConnectKnown {
    pub instance: Option<Result<HeadscaleInstance, KubeError>>,
    pub secret: Option<Result<Secret, KubeError>>,
}

/// Why a headscale instance cannot be connected to.
#[derive(Debug, PartialEq, Eq)]
pub enum ConnectError {
    Kube(KubeError),
    /// A failure to report as the API server would.
    Failure { message: String, reason: &'static str, code: u16 },
}

/// What a failure to connect says.
pub enum ConnectErrorView {
    Kube(KubeError),
    Failure { message: Seq<char>, reason: Seq<char>, code: u16 },
}

impl View for ConnectError {
    type V = ConnectErrorView;

    open spec fn view(&self) -> ConnectErrorView {
        match self {
            ConnectError::Kube(e) => ConnectErrorView::Kube(*e),
            ConnectError::Failure { message, reason, code } => ConnectErrorView::Failure {
                message: message@,
                reason: reason@,
                code: *code,
            },
        }
    }
}

/// What connecting asks for.
#[derive(Debug)]
pub enum ConnectAction {
    GetInstance,
    GetSecret { name: String },
    Dial { endpoint: String, api_key: String },
    Fail(ConnectError),
}

/// What an action of connecting says.
pub enum ConnectActionView {
    GetInstance,
    GetSecret { name: Seq<char> },
    Dial { endpoint: Seq<char>, api_key: Seq<char> },
    Fail(ConnectErrorView),
}

impl View for ConnectAction {
    type V = ConnectActionView;

    open spec fn view(&self) -> ConnectActionView {
        match self {
            ConnectAction::GetInstance => ConnectActionView::GetInstance,
            ConnectAction::GetSecret { name } => ConnectActionView::GetSecret { name: name@ },
            ConnectAction::Dial { endpoint, api_key } => ConnectActionView::Dial {
                endpoint: endpoint@,
                api_key: api_key@,
            },
            ConnectAction::Fail(e) => ConnectActionView::Fail(e@),
        }
    }
}

impl ConnectKnown {
    /// Nothing is known.
    pub fn nothing() -> (known: Self)
        ensures
            known == (ConnectKnown { instance: None, secret: None }),
    {
        ConnectKnown { instance: None, secret: None }
    }
}

/// The gRPC endpoint of an instance: its own where it runs outside the
/// cluster, else that of the Service that the operator made for it.
pub open spec fn endpoint_of(instance: HeadscaleInstance, namespace: Seq<char>, name: Seq<char>) -> Seq<
    char,
> {
    match instance.spec.external {
        Some(external) => external.grpc_endpoint@,
        None => "http://headscale-server-"@ + name + "."@ + namespace + ".svc:50443"@,
    }
}

/// The Secret with the API key of an instance.
pub open spec fn api_key_secret_of(instance: HeadscaleInstance, name: Seq<char>) -> Seq<char> {
    match instance.spec.external {
        Some(external) => external.api_key_secret_ref@,
        None => "headscale-api-key-"@ + name,
    }
}

/// How a headscale instance is connected to. A missing instance or a missing
/// API-key Secret are both reported as not found.
pub open spec fn connect_step(known: ConnectKnown, namespace: Seq<char>, name: Seq<char>) -> ConnectActionView {
    match known.instance {
        None => ConnectActionView::GetInstance,
        Some(Err(e)) => ConnectActionView::Fail(ConnectErrorView::Kube(e)),
        Some(Ok(instance)) => {
            let secret_name = api_key_secret_of(instance, name);
            match known.secret {
                None => ConnectActionView::GetSecret { name: secret_name },
                Some(Err(e)) => if e.not_found() {
                    ConnectActionView::Fail(
                        ConnectErrorView::Failure {
                            message: "Secret "@ + secret_name
                                + " not found; is HeadscaleInstance ready?"@,
                            reason: "NotFound"@,
                            code: 404,
                        },
                    )
                } else {
                    ConnectActionView::Fail(ConnectErrorView::Kube(e))
                },
                Some(Ok(secret)) => match secret.bytes_of("HEADSCALE_API_KEY"@) {
                    Some(bytes) => ConnectActionView::Dial {
                        endpoint: endpoint_of(instance, namespace, name),
                        api_key: lossy_utf8(bytes),
                    },
                    None => ConnectActionView::Fail(
                        ConnectErrorView::Failure {
                            message: "api-key secret has no 'HEADSCALE_API_KEY' field"@,
                            reason: "InvalidSecret"@,
                            code: 500,
                        },
                    ),
                },
            }
        },
    }
}

/// Decides the next step of connecting to a headscale instance.
pub fn headscale_connect(known: &ConnectKnown, namespace: &str, name: &str) -> (action:
    ConnectAction)
    ensures
        action@ == connect_step(*known, namespace@, name@),
{
    match &known.instance {
        None => ConnectAction::GetInstance,
        Some(Err(e)) => ConnectAction::Fail(ConnectError::Kube(e.clone())),
        Some(Ok(instance)) => {
            let (endpoint, secret_name) = match &instance.spec.external {
                Some(external) => (
                    external.grpc_endpoint.clone(),
                    external.api_key_secret_ref.clone(),
                ),
                None => (
                    join5("http://headscale-server-", name, ".", namespace, ".svc:50443"),
                    join2("headscale-api-key-", name),
                ),
            };
            match &known.secret {
                None => ConnectAction::GetSecret { name: secret_name },
                Some(Err(e)) => if e.is_not_found() {
                    ConnectAction::Fail(
                        ConnectError::Failure {
                            message: join3(
                                "Secret ",
                                secret_name.as_str(),
                                " not found; is HeadscaleInstance ready?",
                            ),
                            reason: "NotFound",
                            code: 404,
                        },
                    )
                } else {
                    ConnectAction::Fail(ConnectError::Kube(e.clone()))
                },
                Some(Ok(secret)) => match secret.item("HEADSCALE_API_KEY") {
                    Some(bytes) => ConnectAction::Dial { endpoint, api_key: lossy_text(bytes) },
                    None => ConnectAction::Fail(
                        ConnectError::Failure {
                            message: String::from_str(
                                "api-key secret has no 'HEADSCALE_API_KEY' field",
                            ),
                            reason: "InvalidSecret",
                            code: 500,
                        },
                    ),
                },
            }
        },
    }
}

/// Nothing is asked for that is known already, so that connecting comes to an
/// end.
pub proof fn connect_asks_once(known: ConnectKnown, namespace: Seq<char>, name: Seq<char>)
    ensures
        ({
            let action = connect_step(known, namespace, name);
            &&& action is GetInstance ==> known.instance is None
            &&& action is GetSecret ==> known.secret is None
        }),
{
}

// ---- moving a proxy to another instance ----

/// What is known while a proxy is moved to another headscale instance.
#[derive(Debug)]
pub struct RetargetKnown {
    pub state: Option<Result<Secret, KubeError>>,
    /// Whether the old instance could be connected to.
    pub connected: Option<Result<(), KubeError>>,
    /// Whether the old instance deleted the node.
    pub node_deleted: Option<Result<(), Status>>,
    pub config_deleted: Option<Result<(), Error>>,
    pub state_deleted: Option<Result<(), Error>>,
}

/// What moving a proxy asks for.
#[derive(Debug)]
pub enum RetargetAction {
    ReadState,
    Connect { headscale_ref: String },
    DeleteNode { node_id: u64 },
    DeleteConfigSecret,
    DeleteStateSecret,
    Done(Result<(), Error>),
}

/// What an action of moving a proxy says.
pub enum RetargetActionView {
    ReadState,
    Connect { headscale_ref: Seq<char> },
    DeleteNode { node_id: u64 },
    DeleteConfigSecret,
    DeleteStateSecret,
    Done(Result<(), Error>),
}

impl View for RetargetAction {
    type V = RetargetActionView;

    open spec fn view(&self) -> RetargetActionView {
        match self {
            RetargetAction::ReadState => RetargetActionView::ReadState,
            RetargetAction::Connect { headscale_ref } => RetargetActionView::Connect {
                headscale_ref: headscale_ref@,
            },
            RetargetAction::DeleteNode { node_id } => RetargetActionView::DeleteNode {
                node_id: *node_id,
            },
            RetargetAction::DeleteConfigSecret => RetargetActionView::DeleteConfigSecret,
            RetargetAction::DeleteStateSecret => RetargetActionView::DeleteStateSecret,
            RetargetAction::Done(result) => RetargetActionView::Done(*result),
        }
    }
}

impl RetargetKnown {
    /// Nothing is known.
    pub fn nothing() -> (known: Self)
        ensures
            known == (RetargetKnown {
                state: None,
                connected: None,
                node_deleted: None,
                config_deleted: None,
                state_deleted: None,
            }),
    {
        RetargetKnown {
            state: None,
            connected: None,
            node_deleted: None,
            config_deleted: None,
            state_deleted: None,
        }
    }
}

/// The instance that a proxy has to leave: the one that its state Secret
/// records, where it is another than the one that is wanted.
pub open spec fn instance_to_leave(secret: Secret, headscale_ref: Seq<char>) -> Option<Seq<char>> {
    match secret_text(secret, "headscale_ref"@) {
        Some(old_ref) => if old_ref != headscale_ref {
            Some(old_ref)
        } else {
            None
        },
        None => None,
    }
}

/// Both Secrets of the proxy are dropped, the auth key first.
pub open spec fn reset_step(known: RetargetKnown) -> RetargetActionView {
    match known.config_deleted {
        None => RetargetActionView::DeleteConfigSecret,
        Some(Err(e)) => RetargetActionView::Done(Err(e)),
        Some(Ok(())) => match known.state_deleted {
            None => RetargetActionView::DeleteStateSecret,
            Some(result) => RetargetActionView::Done(result),
        },
    }
}

/// How a proxy is moved to another headscale instance: its node is deleted
/// from the old one, where that still exists, and its Secrets are dropped, so
/// that it registers anew. A proxy that stays is left alone.
pub open spec fn retarget_step(known: RetargetKnown, headscale_ref: Seq<char>) -> RetargetActionView {
    match known.state {
        None => RetargetActionView::ReadState,
        Some(Err(e)) => if e.not_found() {
            RetargetActionView::Done(Ok(()))
        } else {
            RetargetActionView::Done(Err(Error::Kube(e)))
        },
        Some(Ok(secret)) => match instance_to_leave(secret, headscale_ref) {
            None => RetargetActionView::Done(Ok(())),
            Some(old_ref) => match registered_node(secret) {
                None => reset_step(known),
                Some(node_id) => match known.connected {
                    None => RetargetActionView::Connect { headscale_ref: old_ref },
                    Some(Err(e)) => if e.not_found() {
                        reset_step(known)
                    } else {
                        RetargetActionView::Done(Err(Error::Kube(e)))
                    },
                    Some(Ok(())) => match known.node_deleted {
                        None => RetargetActionView::DeleteNode { node_id },
                        Some(Err(status)) => if status.code == StatusCode::NotFound {
                            reset_step(known)
                        } else {
                            RetargetActionView::Done(Err(Error::HeadscaleApi(status)))
                        },
                        Some(Ok(())) => reset_step(known),
                    },
                },
            },
        },
    }
}

fn reset_secrets(known: &RetargetKnown) -> (action: RetargetAction)
    ensures
        action@ == reset_step(*known),
{
    match &known.config_deleted {
        None => RetargetAction::DeleteConfigSecret,
        Some(Err(e)) => RetargetAction::Done(Err(e.clone())),
        Some(Ok(())) => match &known.state_deleted {
            None => RetargetAction::DeleteStateSecret,
            Some(result) => RetargetAction::Done(clone_result(result)),
        },
    }
}

/// Decides the next step of moving a proxy to another headscale instance.
pub fn reset_if_retargeted(known: &RetargetKnown, headscale_ref: &str) -> (action: RetargetAction)
    ensures
        action@ == retarget_step(*known, headscale_ref@),
{
    match &known.state {
        None => RetargetAction::ReadState,
        Some(Err(e)) => if e.is_not_found() {
            RetargetAction::Done(Ok(()))
        } else {
            RetargetAction::Done(Err(Error::Kube(e.clone())))
        },
        Some(Ok(secret)) => {
            let old_ref = match read_secret_string(secret, "headscale_ref") {
                Some(old_ref) => old_ref,
                None => {
                    return RetargetAction::Done(Ok(()));
                },
            };
            if same_text(old_ref.as_str(), headscale_ref) {
                return RetargetAction::Done(Ok(()));
            }
            match read_node_id(secret) {
                None => reset_secrets(known),
                Some(node_id) => match &known.connected {
                    None => RetargetAction::Connect { headscale_ref: old_ref },
                    Some(Err(e)) => if e.is_not_found() {
                        reset_secrets(known)
                    } else {
                        RetargetAction::Done(Err(Error::Kube(e.clone())))
                    },
                    Some(Ok(())) => match &known.node_deleted {
                        None => RetargetAction::DeleteNode { node_id },
                        Some(Err(status)) => if status.code == StatusCode::NotFound {
                            reset_secrets(known)
                        } else {
                            RetargetAction::Done(Err(Error::HeadscaleApi(status.clone())))
                        },
                        Some(Ok(())) => reset_secrets(known),
                    },
                },
            }
        },
    }
}

/// Nothing is asked for that is known already, so that moving a proxy comes to
/// an end.
pub proof fn retarget_asks_once(known: RetargetKnown, headscale_ref: Seq<char>)
    ensures
        ({
            let action = retarget_step(known, headscale_ref);
            &&& action is ReadState ==> known.state is None
            &&& action is Connect ==> known.connected is None
            &&& action is DeleteNode ==> known.node_deleted is None
            &&& action is DeleteConfigSecret ==> known.config_deleted is None
            &&& action is DeleteStateSecret ==> known.state_deleted is None
        }),
{
}

/// A proxy that stays with its instance keeps its Secrets and its node.
pub proof fn staying_proxy_is_left_alone(known: RetargetKnown, headscale_ref: Seq<char>)
    requires
        known.state is Some,
        known.state->0 is Ok,
        secret_text(known.state->0->Ok_0, "headscale_ref"@) == Some(headscale_ref),
    ensures
        retarget_step(known, headscale_ref) == RetargetActionView::Done(Ok::<(), Error>(())),
{
}

/// The Secrets of a moved proxy are dropped only after its node is off the old
/// instance, or the old instance is gone.
pub proof fn moved_proxy_leaves_no_node(known: RetargetKnown, headscale_ref: Seq<char>)
    requires
        retarget_step(known, headscale_ref) is DeleteConfigSecret || retarget_step(
            known,
            headscale_ref,
        ) is DeleteStateSecret,
    ensures
        known.state is Some,
        known.state->0 is Ok,
        instance_to_leave(known.state->0->Ok_0, headscale_ref) is Some,
        registered_node(known.state->0->Ok_0) is None || (known.connected is Some
            && known.connected->0 is Err && known.connected->0->Err_0.not_found()) || (
        known.node_deleted is Some && (known.node_deleted->0 is Ok || known.node_deleted->0->Err_0.code
            == StatusCode::NotFound)),
{
}

} // verus!
