//! The client of daemons that answer for all VMs at once.
//!
//! Dispatching is that of [`NixlingClient`], with failures told as those of a d2b
//! daemon. A refresh asks for the authorization and for one status answer about
//! all VMs, and for the audio status where a VM declares audio. Each of these
//! requests has a connection of its own.

use vstd::prelude::*;

use crate::client::{
    BROKER_SOCKET_MESSAGE, DispatchOutcome, DispatchSession, DispatchSessionView, DispatchStep,
    DispatchStepView, NixlingClient, NixlingClientView, Reply, audio_outcome, auth_outcome,
    declares_audio, dispatch_next, dispatch_start, handshake, read_audio, read_handshake,
    read_reply, refresh_input, refreshed, reply_document, some_audio, success,
};
use crate::config::{Config, is_public_socket_path, public_socket_path};
use crate::error::{WlError, WlErrorView, WlResult, result_view};
use crate::model::{Connectivity, SocketIntent};
use crate::protocol::{Request, RequestView, request_bytes, request_payload};
use crate::reply::{auth_from_reply, model_answer, status_model_from_reply};
use crate::sources::{
    AudioStatus, AudioStatusView, Auth, ReduceInput, ReduceInputView, StatusModel, StatusModelView,
};
use crate::text::opt_view;

verus! {

/// A failure as one of a d2b daemon.
pub open spec fn d2b_error(error: WlErrorView) -> WlErrorView {
    match error {
        WlErrorView::Nixling(text) => WlErrorView::D2b(text),
        other => other,
    }
}

fn as_d2b(error: WlError) -> (told: WlError)
    ensures
        told@ == d2b_error(error@),
{
    match error {
        WlError::Nixling(text) => WlError::D2b(text),
        other => other,
    }
}

/// A dispatch in progress.
pub struct D2bSession {
    pub session: DispatchSession,
}

impl View for D2bSession {
    type V = DispatchSessionView;

    open spec fn view(&self) -> DispatchSessionView {
        self.session@
    }
}

/// What to do next in a dispatch.
pub enum D2bStep {
    /// Send the payload, then tell the session what came back.
    Send { session: D2bSession, payload: Vec<u8> },
    /// The dispatch is over.
    Done { result: WlResult<DispatchOutcome> },
}

impl View for D2bStep {
    type V = DispatchStepView;

    open spec fn view(&self) -> DispatchStepView {
        match self {
            D2bStep::Send { session, payload } => DispatchStepView::Send {
                session: session@,
                payload: payload@,
            },
            D2bStep::Done { result } => DispatchStepView::Done { result: result_view(*result) },
        }
    }
}

/// A step of a dispatch, with a failure told as one of a d2b daemon.
pub open spec fn d2b_step(step: DispatchStepView) -> DispatchStepView {
    match step {
        DispatchStepView::Done { result: Err(error) } => DispatchStepView::Done {
            result: Err(d2b_error(error)),
        },
        other => other,
    }
}

fn tell_step(step: DispatchStep) -> (told: D2bStep)
    ensures
        told@ == d2b_step(step@),
{
    match step {
        DispatchStep::Send { session, payload } => D2bStep::Send {
            session: D2bSession { session },
            payload,
        },
        DispatchStep::Done { result } => D2bStep::Done {
            result: match result {
                Ok(outcome) => Ok(outcome),
                Err(error) => Err(as_d2b(error)),
            },
        },
    }
}

impl D2bSession {
    /// Goes on with what came back for the last payload.
    pub fn reply(self, reply: Reply) -> (step: D2bStep)
        ensures
            step@ == d2b_step(dispatch_next(self@, result_view(reply))),
    {
        tell_step(self.session.reply(reply))
    }
}

/// How far a refresh has come, and what it has learned.
pub enum ModelStage {
    /// The hello message was sent on the first connection.
    AuthHello,
    /// The authorization was asked for.
    Auth,
    /// The hello message was sent on the second connection.
    StatusHello { auth: Auth },
    /// The statuses of all VMs were asked for.
    Status { auth: Auth },
    /// The hello message was sent on the third connection.
    AudioHello { auth: Auth, model: StatusModel },
    /// The audio status was asked for.
    Audio { auth: Auth, model: StatusModel },
}

/// The mathematical form of [`ModelStage`].
#[verifier::ext_equal]
pub enum ModelStageView {
    AuthHello,
    Auth,
    StatusHello { auth: Auth },
    Status { auth: Auth },
    AudioHello { auth: Auth, model: StatusModelView },
    Audio { auth: Auth, model: StatusModelView },
}

impl View for ModelStage {
    type V = ModelStageView;

    open spec fn view(&self) -> ModelStageView {
        match self {
            ModelStage::AuthHello => ModelStageView::AuthHello,
            ModelStage::Auth => ModelStageView::Auth,
            ModelStage::StatusHello { auth } => ModelStageView::StatusHello { auth: *auth },
            ModelStage::Status { auth } => ModelStageView::Status { auth: *auth },
            ModelStage::AudioHello { auth, model } => ModelStageView::AudioHello {
                auth: *auth,
                model: model@,
            },
            ModelStage::Audio { auth, model } => ModelStageView::Audio {
                auth: *auth,
                model: model@,
            },
        }
    }
}

/// What to do next in a refresh.
pub enum ModelStep {
    /// Send the payload, on a new connection where `reconnect` says so, then tell
    /// the stage what came back.
    Send { stage: ModelStage, payload: Vec<u8>, reconnect: bool },
    /// The refresh is over.
    Done { result: WlResult<ReduceInput> },
}

/// The mathematical form of [`ModelStep`].
pub enum ModelStepView {
    Send { stage: ModelStageView, payload: Seq<u8>, reconnect: bool },
    Done { result: Result<ReduceInputView, WlErrorView> },
}

impl View for ModelStep {
    type V = ModelStepView;

    open spec fn view(&self) -> ModelStepView {
        match self {
            ModelStep::Send { stage, payload, reconnect } => ModelStepView::Send {
                stage: stage@,
                payload: payload@,
                reconnect: *reconnect,
            },
            ModelStep::Done { result } => ModelStepView::Done { result: result_view(*result) },
        }
    }
}

/// Opens a connection with the hello message.
pub open spec fn model_hello(stage: ModelStageView) -> ModelStepView {
    ModelStepView::Send { stage, payload: request_bytes(RequestView::Hello), reconnect: true }
}

/// Sends a request on the open connection.
pub open spec fn model_ask(stage: ModelStageView, request: RequestView) -> ModelStepView {
    ModelStepView::Send { stage, payload: request_bytes(request), reconnect: false }
}

/// The end of a failed refresh.
pub open spec fn model_failed(error: WlErrorView) -> ModelStepView {
    ModelStepView::Done { result: Err(d2b_error(error)) }
}

/// The end of a refresh.
pub open spec fn model_done(result: Result<ReduceInputView, WlErrorView>) -> ModelStepView {
    ModelStepView::Done { result }
}

fn fail(error: WlError) -> (step: ModelStep)
    ensures
        step@ == model_failed(error@),
{
    ModelStep::Done { result: Err(as_d2b(error)) }
}

fn send_hello(stage: ModelStage) -> (step: ModelStep)
    ensures
        step@ == model_hello(stage@),
{
    match request_payload(&Request::Hello) {
        Ok(payload) => ModelStep::Send { stage, payload, reconnect: true },
        Err(error) => ModelStep::Done { result: Err(error) },
    }
}

fn send_request(stage: ModelStage, request: Request) -> (step: ModelStep)
    ensures
        step@ == model_ask(stage@, request@),
{
    match request_payload(&request) {
        Ok(payload) => ModelStep::Send { stage, payload, reconnect: false },
        Err(error) => ModelStep::Done { result: Err(error) },
    }
}

/// What the reply to a request for all statuses comes to.
pub open spec fn model_outcome(reply: Result<Seq<u8>, WlErrorView>) -> Result<
    StatusModelView,
    WlErrorView,
> {
    match reply_document(reply) {
        Ok(document) => model_answer(document),
        Err(error) => Err(error),
    }
}

/// The bundle of a successful refresh.
pub open spec fn modelled(
    auth: Auth,
    model: StatusModelView,
    audio: Option<AudioStatusView>,
) -> ReduceInputView {
    refreshed(auth, model.inventory, model.statuses, Some(model.usb), audio)
}

/// How a refresh begins: with the hello message, unless the configured socket is
/// not a public one.
pub open spec fn model_start(client: NixlingClientView) -> ModelStepView {
    if public_socket_path(client.socket_path) {
        model_hello(ModelStageView::AuthHello)
    } else {
        model_done(Err(WlErrorView::Config(BROKER_SOCKET_MESSAGE@)))
    }
}

/// What a refresh does with a reply. Without the authorization or the statuses
/// the refresh fails; an audio status that cannot be had is left out.
pub open spec fn model_next(
    stage: ModelStageView,
    reply: Result<Seq<u8>, WlErrorView>,
) -> ModelStepView {
    match stage {
        ModelStageView::AuthHello => match handshake(reply) {
            Ok(()) => model_ask(ModelStageView::Auth, RequestView::AuthStatus),
            Err(error) => model_failed(error),
        },
        ModelStageView::Auth => match auth_outcome(reply) {
            Ok(auth) => model_hello(ModelStageView::StatusHello { auth }),
            Err(error) => model_failed(error),
        },
        ModelStageView::StatusHello { auth } => match handshake(reply) {
            Ok(()) => model_ask(ModelStageView::Status { auth }, RequestView::StatusModel),
            Err(error) => model_failed(error),
        },
        ModelStageView::Status { auth } => match model_outcome(reply) {
            Ok(model) => if declares_audio(model.inventory.vms) {
                model_hello(ModelStageView::AudioHello { auth, model })
            } else {
                model_done(Ok(modelled(auth, model, None)))
            },
            Err(error) => model_failed(error),
        },
        ModelStageView::AudioHello { auth, model } => match handshake(reply) {
            Ok(()) => model_ask(ModelStageView::Audio { auth, model }, RequestView::AudioStatus),
            Err(error) => model_done(Ok(modelled(auth, model, None))),
        },
        ModelStageView::Audio { auth, model } => model_done(
            Ok(modelled(auth, model, success(audio_outcome(reply)))),
        ),
    }
}

fn read_model(reply: Reply) -> (model: WlResult<StatusModel>)
    ensures
        result_view(model) == model_outcome(result_view(reply)),
{
    match read_reply(reply) {
        Ok(document) => status_model_from_reply(&document),
        Err(error) => Err(error),
    }
}

fn finish_model(auth: Auth, model: StatusModel, audio: Option<AudioStatus>) -> (step: ModelStep)
    ensures
        step@ == model_done(Ok(modelled(auth, model@, opt_view(audio)))),
{
    let StatusModel { inventory, statuses, usb } = model;
    ModelStep::Done {
        result: Ok(
            ReduceInput {
                connectivity: Connectivity::Connected,
                auth: Some(auth),
                inventory: Some(inventory),
                statuses,
                usb: Some(usb),
                audio,
            },
        ),
    }
}

impl ModelStage {
    /// Goes on with what came back for the last payload.
    pub fn reply(self, reply: Reply) -> (step: ModelStep)
        ensures
            step@ == model_next(self@, result_view(reply)),
    {
        match self {
            ModelStage::AuthHello => match read_handshake(reply) {
                Ok(()) => send_request(ModelStage::Auth, Request::AuthStatus),
                Err(error) => fail(error),
            },
            ModelStage::Auth => {
                let auth = match read_reply(reply) {
                    Ok(document) => auth_from_reply(&document),
                    Err(error) => Err(error),
                };
                match auth {
                    Ok(auth) => send_hello(ModelStage::StatusHello { auth }),
                    Err(error) => fail(error),
                }
            },
            ModelStage::StatusHello { auth } => match read_handshake(reply) {
                Ok(()) => send_request(ModelStage::Status { auth }, Request::StatusModel),
                Err(error) => fail(error),
            },
            ModelStage::Status { auth } => match read_model(reply) {
                Ok(model) => if some_audio(&model.inventory) {
                    send_hello(ModelStage::AudioHello { auth, model })
                } else {
                    finish_model(auth, model, None)
                },
                Err(error) => fail(error),
            },
            ModelStage::AudioHello { auth, model } => match read_handshake(reply) {
                Ok(()) => send_request(ModelStage::Audio { auth, model }, Request::AudioStatus),
                Err(_) => finish_model(auth, model, None),
            },
            ModelStage::Audio { auth, model } => {
                let audio = read_audio(reply);
                finish_model(auth, model, audio)
            },
        }
    }
}

/// A public-socket client of daemons that answer for all VMs at once. It is cheap
/// to construct and holds no connection.
pub struct D2bClient {
    client: NixlingClient,
}

impl View for D2bClient {
    type V = NixlingClientView;

    closed spec fn view(&self) -> NixlingClientView {
        self.client@
    }
}

impl D2bClient {
    /// Build a client from user configuration.
    pub fn new(config: &Config) -> (client: Self)
        ensures
            client@ == (NixlingClientView {
                socket_path: config@.public_socket,
                timeout_ms: config@.command_timeout_ms,
            }),
    {
        D2bClient { client: NixlingClient::new(config) }
    }

    /// The configured public-socket path.
    pub fn socket_path(&self) -> (path: &str)
        ensures
            path@ == self@.socket_path,
    {
        self.client.socket_path()
    }

    /// The per-operation timeout in milliseconds.
    pub fn timeout(&self) -> (timeout: u64)
        ensures
            timeout == self@.timeout_ms,
    {
        self.client.timeout()
    }

    /// Begin to dispatch a single typed intent. A configured socket that is not
    /// a public one is refused before anything is sent.
    pub fn dispatch(&self, intent: &SocketIntent) -> (step: D2bStep)
        ensures
            step@ == d2b_step(dispatch_start(self@, intent@)),
    {
        tell_step(self.client.dispatch(intent))
    }

    /// Begin a refresh. A configured socket that is not a public one is refused
    /// before anything is sent.
    pub fn try_refresh(&self) -> (step: ModelStep)
        ensures
            step@ == model_start(self@),
    {
        if !is_public_socket_path(self.client.socket_path()) {
            return ModelStep::Done {
                result: Err(WlError::Config(BROKER_SOCKET_MESSAGE.to_owned())),
            };
        }
        send_hello(ModelStage::AuthHello)
    }

    /// Turn the outcome of a refresh into the fragments the reducer consumes: a
    /// failed refresh degrades, it never looks healthy.
    pub fn refresh(&self, outcome: WlResult<ReduceInput>) -> (input: ReduceInput)
        ensures
            input@ == refresh_input(result_view(outcome)),
    {
        self.client.refresh(outcome)
    }
}

/// A configured socket that is not a public one is refused before anything is
/// sent.
pub proof fn law_model_refuses_broker_socket(client: NixlingClientView)
    requires
        !public_socket_path(client.socket_path),
    ensures
        model_start(client) == model_done(Err(WlErrorView::Config(BROKER_SOCKET_MESSAGE@))),
{
}

/// A dispatch sends the same and succeeds in the same cases as that of
/// [`NixlingClient`]; only the failures of the daemon are told as those of d2b.
pub proof fn law_dispatch_differs_only_in_failures(step: DispatchStepView)
    ensures
        step is Send ==> d2b_step(step) == step,
        step is Done && step->result is Ok ==> d2b_step(step) == step,
        step is Done && step->result is Err ==> {
            &&& d2b_step(step) is Done
            &&& d2b_step(step)->result is Err
            &&& !(d2b_step(step)->result->Err_0 is Nixling)
        },
{
}

/// Every connection opens with the hello message, and the hello message is sent
/// on no other occasion.
pub proof fn law_every_connection_opens_with_hello(
    client: NixlingClientView,
    stage: ModelStageView,
    reply: Result<Seq<u8>, WlErrorView>,
)
    ensures
        model_start(client) matches ModelStepView::Send { payload, reconnect, .. } ==> reconnect
            && payload == request_bytes(RequestView::Hello),
        model_next(stage, reply) matches ModelStepView::Send { payload, reconnect: true, .. }
            ==> payload == request_bytes(RequestView::Hello),
        model_next(stage, reply) matches ModelStepView::Send { stage: next, reconnect, .. } ==> (
        reconnect <==> next is AuthHello || next is StatusHello || next is AudioHello),
{
}

/// One connection carries one request: after its answer the next payload goes to
/// a new connection.
pub proof fn law_one_request_per_connection(
    stage: ModelStageView,
    reply: Result<Seq<u8>, WlErrorView>,
)
    requires
        stage is Auth || stage is Status || stage is Audio,
    ensures
        model_next(stage, reply) matches ModelStepView::Send { reconnect, .. } ==> reconnect,
{
}

/// How many replies a refresh can still wait for.
pub open spec fn model_left(stage: ModelStageView) -> nat {
    match stage {
        ModelStageView::AuthHello => 6,
        ModelStageView::Auth => 5,
        ModelStageView::StatusHello { .. } => 4,
        ModelStageView::Status { .. } => 3,
        ModelStageView::AudioHello { .. } => 2,
        ModelStageView::Audio { .. } => 1,
    }
}

/// Every refresh ends: each reply leaves fewer to wait for.
pub proof fn law_model_refresh_ends(stage: ModelStageView, reply: Result<Seq<u8>, WlErrorView>)
    ensures
        model_next(stage, reply) matches ModelStepView::Send { stage: next, .. } ==> model_left(next)
            < model_left(stage),
{
}

/// A refresh succeeds only with an authorization, an inventory and USB claims: it
/// never passes off a daemon that stopped answering as one without VMs.
pub proof fn law_model_refresh_is_never_hollow(
    stage: ModelStageView,
    reply: Result<Seq<u8>, WlErrorView>,
)
    requires
        model_next(stage, reply) matches ModelStepView::Done { result } && result is Ok,
    ensures
        ({
            let input = model_next(stage, reply)->result->Ok_0;
            &&& input.connectivity == Connectivity::Connected
            &&& input.auth is Some
            &&& input.inventory is Some
            &&& input.usb is Some
        }),
{
}

/// A transport that fails before the statuses are known ends the refresh with
/// that failure.
pub proof fn law_model_failure_is_reported(
    stage: ModelStageView,
    reply: Result<Seq<u8>, WlErrorView>,
)
    requires
        reply is Err,
        stage is AuthHello || stage is Auth || stage is StatusHello || stage is Status,
    ensures
        model_next(stage, reply) == model_failed(reply->Err_0),
{
}

} // verus!
