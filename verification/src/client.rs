//! The public-socket client.
//!
//! The client holds no connection. Each conversation is a session that says
//! which payload to send next and is told what came back: the reply bytes, or
//! the failure of the transport. Whoever drives a session opens one connection
//! for it, sends each payload as one frame, and closes the connection when the
//! session is done.

use vstd::prelude::*;

use crate::config::{Config, ConfigView, is_public_socket_path, public_socket_path};
use crate::error::{WlError, WlErrorView, WlResult, result_view};
use crate::json::{Json, JsonView, parse, parsed};
use crate::model::{
    AudioChannel, AuthRole, Connectivity, RuntimeState, SocketIntent, SocketIntentView,
    WlStateView,
};
use crate::protocol::{
    Request, RequestView, channel_name, channel_text, request_bytes, request_payload,
};
use crate::reduce::{RefreshEnd, carried};
use crate::reply::{
    audio_op_answer, audio_op_from_reply, audio_status_answer, audio_status_from_reply, auth_answer,
    auth_from_reply, hello_verdict, inventory_answer, inventory_from_reply, mutation_answer,
    mutation_from_reply, parse_hello_reply, parse_store_verify, probe_answer,
    reject_error_response, reported_error, status_answer, status_from_reply, store_answer,
    usb_probe_from_reply,
};
use crate::sources::{
    AudioStatus, AudioStatusView, Auth, Inventory, InventoryVmView, InventoryView,
    ReduceInput, ReduceInputView, UsbProbe, UsbProbeView, VmStatus, VmStatusView, bare_input,
};
use crate::text::{decimal, decimal_text, opt_view, views};

verus! {

/// Said of a configured socket that is not a public one.
pub const BROKER_SOCKET_MESSAGE: &'static str =
    "refusing to connect to the privileged d2b broker socket";

/// Outcome of a single dispatched intent.
#[derive(Debug, PartialEq, Eq)]
pub struct DispatchOutcome {
    /// Human-facing one-line summary suitable for the UI.
    pub summary: String,
}

/// The mathematical form of [`DispatchOutcome`].
#[verifier::ext_equal]
pub struct DispatchOutcomeView {
    pub summary: Seq<char>,
}

impl View for DispatchOutcome {
    type V = DispatchOutcomeView;

    open spec fn view(&self) -> DispatchOutcomeView {
        DispatchOutcomeView {
            summary: self.summary@,
        }
    }
}

impl Clone for DispatchOutcome {
    fn clone(&self) -> (copy: Self)
        ensures
            copy@ == self@,
    {
        DispatchOutcome {
            summary: self.summary.clone(),
        }
    }
}

/// How far a dispatch has come.
pub enum DispatchStage {
    /// The hello message was sent.
    Hello,
    /// The request was sent.
    Answer,
    /// The microphone was muted, or failed to be, and the request to mute the
    /// speaker was sent.
    Speaker { microphone: Option<WlError> },
}

/// The mathematical form of [`DispatchStage`].
#[verifier::ext_equal]
pub enum DispatchStageView {
    Hello,
    Answer,
    Speaker { microphone: Option<WlErrorView> },
}

impl View for DispatchStage {
    type V = DispatchStageView;

    open spec fn view(&self) -> DispatchStageView {
        match self {
            DispatchStage::Hello => DispatchStageView::Hello,
            DispatchStage::Answer => DispatchStageView::Answer,
            DispatchStage::Speaker { microphone } => DispatchStageView::Speaker {
                microphone: opt_view(*microphone),
            },
        }
    }
}

/// A dispatch in progress.
pub struct DispatchSession {
    pub intent: SocketIntent,
    pub stage: DispatchStage,
}

/// The mathematical form of [`DispatchSession`].
#[verifier::ext_equal]
pub struct DispatchSessionView {
    pub intent: SocketIntentView,
    pub stage: DispatchStageView,
}

impl View for DispatchSession {
    type V = DispatchSessionView;

    open spec fn view(&self) -> DispatchSessionView {
        DispatchSessionView {
            intent: self.intent@,
            stage: self.stage@,
        }
    }
}

/// How far a refresh has come, and what it has learned.
pub enum RefreshStage {
    /// The hello message was sent.
    Hello,
    /// The authorization was asked for.
    Auth,
    /// The inventory was asked for.
    List { auth: Auth },
    /// The status of `vm` was asked for; those of `rest` come next.
    Status {
        auth: Auth,
        inventory: Inventory,
        statuses: Vec<VmStatus>,
        vm: String,
        rest: Vec<String>,
    },
    /// The USB claims were asked for.
    Usb { auth: Auth, inventory: Inventory, statuses: Vec<VmStatus> },
    /// The audio status was asked for.
    Audio { auth: Auth, inventory: Inventory, statuses: Vec<VmStatus>, usb: Option<UsbProbe> },
}

/// The mathematical form of [`RefreshStage`].
#[verifier::ext_equal]
pub enum RefreshStageView {
    Hello,
    Auth,
    List { auth: Auth },
    Status {
        auth: Auth,
        inventory: InventoryView,
        statuses: Seq<VmStatusView>,
        vm: Seq<char>,
        rest: Seq<Seq<char>>,
    },
    Usb { auth: Auth, inventory: InventoryView, statuses: Seq<VmStatusView> },
    Audio {
        auth: Auth,
        inventory: InventoryView,
        statuses: Seq<VmStatusView>,
        usb: Option<UsbProbeView>,
    },
}

impl View for RefreshStage {
    type V = RefreshStageView;

    open spec fn view(&self) -> RefreshStageView {
        match self {
            RefreshStage::Hello => RefreshStageView::Hello,
            RefreshStage::Auth => RefreshStageView::Auth,
            RefreshStage::List { auth } => RefreshStageView::List { auth: *auth },
            RefreshStage::Status { auth, inventory, statuses, vm, rest } => RefreshStageView::Status {
                auth: *auth,
                inventory: inventory@,
                statuses: views(statuses@),
                vm: vm@,
                rest: views(rest@),
            },
            RefreshStage::Usb { auth, inventory, statuses } => RefreshStageView::Usb {
                auth: *auth,
                inventory: inventory@,
                statuses: views(statuses@),
            },
            RefreshStage::Audio { auth, inventory, statuses, usb } => RefreshStageView::Audio {
                auth: *auth,
                inventory: inventory@,
                statuses: views(statuses@),
                usb: opt_view(*usb),
            },
        }
    }
}

/// What to do next in a dispatch.
pub enum DispatchStep {
    /// Send the payload, then tell the session what came back.
    Send { session: DispatchSession, payload: Vec<u8> },
    /// The dispatch is over.
    Done { result: WlResult<DispatchOutcome> },
}

/// The mathematical form of [`DispatchStep`].
pub enum DispatchStepView {
    Send { session: DispatchSessionView, payload: Seq<u8> },
    Done { result: Result<DispatchOutcomeView, WlErrorView> },
}

impl View for DispatchStep {
    type V = DispatchStepView;

    open spec fn view(&self) -> DispatchStepView {
        match self {
            DispatchStep::Send { session, payload } => DispatchStepView::Send {
                session: session@,
                payload: payload@,
            },
            DispatchStep::Done { result } => DispatchStepView::Done {
                result: result_view(*result),
            },
        }
    }
}

/// What to do next in a refresh.
pub enum RefreshStep {
    /// Send the payload, then tell the stage what came back.
    Send { stage: RefreshStage, payload: Vec<u8> },
    /// The refresh is over.
    Done { result: WlResult<ReduceInput> },
}

/// The mathematical form of [`RefreshStep`].
pub enum RefreshStepView {
    Send { stage: RefreshStageView, payload: Seq<u8> },
    Done { result: Result<ReduceInputView, WlErrorView> },
}

impl View for RefreshStep {
    type V = RefreshStepView;

    open spec fn view(&self) -> RefreshStepView {
        match self {
            RefreshStep::Send { stage, payload } => RefreshStepView::Send {
                stage: stage@,
                payload: payload@,
            },
            RefreshStep::Done { result } => RefreshStepView::Done { result: result_view(*result) },
        }
    }
}

/// What the transport brought back: reply bytes, or its failure.
pub type Reply = WlResult<Vec<u8>>;

/// The document of a reply: a failure of the transport, bytes that are no JSON
/// document, and an error reply all fail.
pub open spec fn reply_document(reply: Result<Seq<u8>, WlErrorView>) -> Result<
    JsonView,
    WlErrorView,
> {
    match reply {
        Ok(bytes) => match parsed(bytes) {
            Ok(document) => match reported_error(document) {
                Some(error) => Err(error),
                None => Ok(document),
            },
            Err(complaint) => Err(WlErrorView::Protocol(complaint)),
        },
        Err(error) => Err(error),
    }
}

/// Whether the daemon accepted the hello message.
pub open spec fn handshake(reply: Result<Seq<u8>, WlErrorView>) -> Result<(), WlErrorView> {
    match reply {
        Ok(bytes) => match parsed(bytes) {
            Ok(document) => match hello_verdict(document) {
                Some(error) => Err(error),
                None => Ok(()),
            },
            Err(complaint) => Err(WlErrorView::Protocol(complaint)),
        },
        Err(error) => Err(error),
    }
}

pub(crate) fn read_reply(reply: Reply) -> (document: WlResult<Json>)
    ensures
        result_view(document) == reply_document(result_view(reply)),
{
    match reply {
        Ok(bytes) => match parse(bytes.as_slice()) {
            Ok(document) => match reject_error_response(&document) {
                Ok(()) => Ok(document),
                Err(error) => Err(error),
            },
            Err(complaint) => Err(WlError::Protocol(complaint)),
        },
        Err(error) => Err(error),
    }
}

pub(crate) fn read_handshake(reply: Reply) -> (verdict: WlResult<()>)
    ensures
        match verdict {
            Ok(()) => handshake(result_view(reply)) is Ok,
            Err(error) => handshake(result_view(reply)) == Err::<(), WlErrorView>(error@),
        },
{
    match reply {
        Ok(bytes) => match parse(bytes.as_slice()) {
            Ok(document) => parse_hello_reply(&document),
            Err(complaint) => Err(WlError::Protocol(complaint)),
        },
        Err(error) => Err(error),
    }
}

/// Said of an audio level over one hundred percent.
pub open spec fn level_error() -> WlErrorView {
    WlErrorView::Config("audio level must be between 0 and 100"@)
}

/// The first request of an intent, after the hello message.
pub open spec fn first_request(intent: SocketIntentView) -> Result<RequestView, WlErrorView> {
    match intent {
        SocketIntentView::List => Ok(RequestView::List),
        SocketIntentView::Status { vm } => Ok(RequestView::Status { vm }),
        SocketIntentView::AuthStatus => Ok(RequestView::AuthStatus),
        SocketIntentView::UsbProbe => Ok(RequestView::UsbProbe),
        SocketIntentView::VmStart { vm } => Ok(RequestView::VmStart { vm }),
        SocketIntentView::VmStop { vm, force } => Ok(RequestView::VmStop { vm, force }),
        SocketIntentView::VmRestart { vm } => Ok(RequestView::VmRestart { vm }),
        SocketIntentView::Switch { vm } => Ok(RequestView::Switch { vm }),
        SocketIntentView::Boot { vm } => Ok(RequestView::Boot { vm }),
        SocketIntentView::UsbAttach { vm, bus_id } => Ok(RequestView::UsbBind { vm, bus_id }),
        SocketIntentView::UsbDetach { vm, bus_id } => Ok(RequestView::UsbUnbind { vm, bus_id }),
        SocketIntentView::StoreVerify { vm } => Ok(RequestView::StoreVerify { vm }),
        SocketIntentView::AudioMute { vm, channel, mute } => Ok(
            RequestView::AudioMute { vm, channel, mute },
        ),
        SocketIntentView::AudioSetVolume { vm, channel, level_percent } => if level_percent > 100 {
            Err(level_error())
        } else {
            Ok(RequestView::AudioSetVolume { vm, channel, level: level_percent })
        },
        SocketIntentView::AudioOff { vm } => Ok(
            RequestView::AudioMute { vm, channel: AudioChannel::Microphone, mute: true },
        ),
    }
}

fn open_request(intent: &SocketIntent) -> (request: WlResult<Request>)
    ensures
        result_view(request) == first_request(intent@),
{
    match intent {
        SocketIntent::List => Ok(Request::List),
        SocketIntent::Status { vm } => Ok(Request::Status { vm: vm.clone() }),
        SocketIntent::AuthStatus => Ok(Request::AuthStatus),
        SocketIntent::UsbProbe => Ok(Request::UsbProbe),
        SocketIntent::VmStart { vm } => Ok(Request::VmStart { vm: vm.clone() }),
        SocketIntent::VmStop { vm, force } => Ok(Request::VmStop { vm: vm.clone(), force: *force }),
        SocketIntent::VmRestart { vm } => Ok(Request::VmRestart { vm: vm.clone() }),
        SocketIntent::Switch { vm } => Ok(Request::Switch { vm: vm.clone() }),
        SocketIntent::Boot { vm } => Ok(Request::Boot { vm: vm.clone() }),
        SocketIntent::UsbAttach { vm, bus_id } => Ok(
            Request::UsbBind { vm: vm.clone(), bus_id: bus_id.clone() },
        ),
        SocketIntent::UsbDetach { vm, bus_id } => Ok(
            Request::UsbUnbind { vm: vm.clone(), bus_id: bus_id.clone() },
        ),
        SocketIntent::StoreVerify { vm } => Ok(Request::StoreVerify { vm: vm.clone() }),
        SocketIntent::AudioMute { vm, channel, mute } => Ok(
            Request::AudioMute { vm: vm.clone(), channel: *channel, mute: *mute },
        ),
        SocketIntent::AudioSetVolume { vm, channel, level_percent } => if *level_percent > 100 {
            Err(WlError::Config("audio level must be between 0 and 100".to_owned()))
        } else {
            Ok(
                Request::AudioSetVolume {
                    vm: vm.clone(),
                    channel: *channel,
                    level: *level_percent,
                },
            )
        },
        SocketIntent::AudioOff { vm } => Ok(
            Request::AudioMute { vm: vm.clone(), channel: AudioChannel::Microphone, mute: true },
        ),
    }
}

/// How a summary names a state.
pub open spec fn state_label(state: RuntimeState) -> Seq<char> {
    match state {
        RuntimeState::Running => "Running"@,
        RuntimeState::Starting => "Starting"@,
        RuntimeState::Stopping => "Stopping"@,
        RuntimeState::Stopped => "Stopped"@,
        RuntimeState::Unknown => "Unknown"@,
    }
}

fn state_text(state: RuntimeState) -> (text: &'static str)
    ensures
        text@ == state_label(state),
{
    match state {
        RuntimeState::Running => "Running",
        RuntimeState::Starting => "Starting",
        RuntimeState::Stopping => "Stopping",
        RuntimeState::Stopped => "Stopped",
        RuntimeState::Unknown => "Unknown",
    }
}

/// How a summary names a role.
pub open spec fn role_label(role: AuthRole) -> Seq<char> {
    match role {
        AuthRole::NoRole => "None"@,
        AuthRole::Launcher => "Launcher"@,
        AuthRole::Admin => "Admin"@,
    }
}

fn role_text(role: AuthRole) -> (text: &'static str)
    ensures
        text@ == role_label(role),
{
    match role {
        AuthRole::NoRole => "None",
        AuthRole::Launcher => "Launcher",
        AuthRole::Admin => "Admin",
    }
}

/// The summary of an audio operation on one channel.
pub open spec fn audio_summary(vm: Seq<char>, channel: AudioChannel, what: Seq<char>) -> Seq<char> {
    "audio "@ + vm + " "@ + channel_name(channel) + what
}

/// What the answer to the first request of an intent comes to.
pub open spec fn answered(intent: SocketIntentView, document: JsonView) -> Result<
    Seq<char>,
    WlErrorView,
> {
    match intent {
        SocketIntentView::List => match inventory_answer(document) {
            Ok(inventory) => Ok("listed "@ + decimal(inventory.vms.len()) + " VM(s)"@),
            Err(error) => Err(error),
        },
        SocketIntentView::Status { vm } => match status_answer(document, vm) {
            Ok(status) => Ok(status.name + " status: "@ + state_label(status.state)),
            Err(error) => Err(error),
        },
        SocketIntentView::AuthStatus => match auth_answer(document) {
            Ok(auth) => Ok("auth role: "@ + role_label(auth.role)),
            Err(error) => Err(error),
        },
        SocketIntentView::UsbProbe => match probe_answer(document) {
            Ok(probe) => Ok("probed "@ + decimal(probe.claims.len()) + " USB claim(s)"@),
            Err(error) => Err(error),
        },
        SocketIntentView::StoreVerify { vm } => store_answer(document),
        SocketIntentView::AudioMute { vm, channel, mute } => match audio_op_answer(document) {
            Ok(()) => Ok(
                audio_summary(
                    vm,
                    channel,
                    if mute {
                        ": muted"@
                    } else {
                        ": unmuted"@
                    },
                ),
            ),
            Err(error) => Err(error),
        },
        SocketIntentView::AudioSetVolume { vm, channel, level_percent } => match audio_op_answer(
            document,
        ) {
            Ok(()) => Ok(
                audio_summary(
                    vm,
                    channel,
                    " level: "@ + decimal(level_percent as nat) + "%"@,
                ),
            ),
            Err(error) => Err(error),
        },
        SocketIntentView::AudioOff { vm } => match audio_op_answer(document) {
            Ok(()) => Ok(audio_off_summary(vm)),
            Err(error) => Err(error),
        },
        _ => mutation_answer(document),
    }
}

/// The summary of disabled audio.
pub open spec fn audio_off_summary(vm: Seq<char>) -> Seq<char> {
    "audio "@ + vm + " disabled"@
}

fn audio_text(vm: &String, channel: AudioChannel, what: &str) -> (text: String)
    ensures
        text@ == audio_summary(vm@, channel, what@),
{
    let mut text = "audio ".to_owned();
    text.append(vm.as_str());
    text.append(" ");
    text.append(channel_text(channel));
    text.append(what);
    text
}

/// Sums up the answer to the first request of an intent.
pub fn summarize(intent: &SocketIntent, document: &Json) -> (summary: WlResult<String>)
    ensures
        result_view(summary) == answered(intent@, document@),
{
    match intent {
        SocketIntent::List => match inventory_from_reply(document) {
            Ok(inventory) => {
                let mut text = "listed ".to_owned();
                text.append(decimal_text(inventory.vms.len() as u64).as_str());
                text.append(" VM(s)");
                Ok(text)
            },
            Err(error) => Err(error),
        },
        SocketIntent::Status { vm } => match status_from_reply(document, vm.as_str()) {
            Ok(status) => {
                let mut text = status.name.clone();
                text.append(" status: ");
                text.append(state_text(status.state));
                Ok(text)
            },
            Err(error) => Err(error),
        },
        SocketIntent::AuthStatus => match auth_from_reply(document) {
            Ok(auth) => Ok("auth role: ".to_owned().concat(role_text(auth.role))),
            Err(error) => Err(error),
        },
        SocketIntent::UsbProbe => match usb_probe_from_reply(document) {
            Ok(probe) => {
                let mut text = "probed ".to_owned();
                text.append(decimal_text(probe.claims.len() as u64).as_str());
                text.append(" USB claim(s)");
                Ok(text)
            },
            Err(error) => Err(error),
        },
        SocketIntent::StoreVerify { .. } => parse_store_verify(document),
        SocketIntent::AudioMute { vm, channel, mute } => match audio_op_from_reply(document) {
            Ok(()) => Ok(
                audio_text(
                    vm,
                    *channel,
                    if *mute {
                        ": muted"
                    } else {
                        ": unmuted"
                    },
                ),
            ),
            Err(error) => Err(error),
        },
        SocketIntent::AudioSetVolume { vm, channel, level_percent } => match audio_op_from_reply(
            document,
        ) {
            Ok(()) => {
                let mut what = " level: ".to_owned();
                what.append(decimal_text(*level_percent as u64).as_str());
                what.append("%");
                Ok(audio_text(vm, *channel, what.as_str()))
            },
            Err(error) => Err(error),
        },
        SocketIntent::AudioOff { vm } => match audio_op_from_reply(document) {
            Ok(()) => {
                let mut text = "audio ".to_owned();
                text.append(vm.as_str());
                text.append(" disabled");
                Ok(text)
            },
            Err(error) => Err(error),
        },
        _ => mutation_from_reply(document),
    }
}

/// Whether an error says that the connection is of no further use.
pub open spec fn is_fatal(error: WlErrorView) -> bool {
    error is Protocol || error is Timeout || error is DaemonDown || error is Io
}

fn fatal(error: &WlError) -> (yes: bool)
    ensures
        yes == is_fatal(error@),
{
    match error {
        WlError::Protocol(_) | WlError::Timeout(_) | WlError::DaemonDown(_) | WlError::Io(_) => true,
        _ => false,
    }
}

/// The end of a dispatch.
pub open spec fn dispatch_done(result: Result<Seq<char>, WlErrorView>) -> DispatchStepView {
    DispatchStepView::Done {
        result: match result {
            Ok(summary) => Ok(DispatchOutcomeView { summary }),
            Err(error) => Err(error),
        },
    }
}

fn finish_dispatch(result: WlResult<String>) -> (step: DispatchStep)
    ensures
        step@ == dispatch_done(result_view(result)),
{
    DispatchStep::Done {
        result: match result {
            Ok(summary) => Ok(DispatchOutcome { summary }),
            Err(error) => Err(error),
        },
    }
}

/// The next payload of a dispatch.
pub open spec fn dispatch_send(
    intent: SocketIntentView,
    stage: DispatchStageView,
    request: RequestView,
) -> DispatchStepView {
    DispatchStepView::Send {
        session: DispatchSessionView { intent, stage },
        payload: request_bytes(request),
    }
}

fn send_dispatch(intent: SocketIntent, stage: DispatchStage, request: Request) -> (step:
    DispatchStep)
    ensures
        step@ == dispatch_send(intent@, stage@, request@),
{
    match request_payload(&request) {
        Ok(payload) => DispatchStep::Send {
            session: DispatchSession { intent, stage },
            payload,
        },
        Err(error) => DispatchStep::Done { result: Err(error) },
    }
}

/// How a dispatch begins: with the hello message, unless the configured socket
/// is not a public one.
pub open spec fn dispatch_start(client: NixlingClientView, intent: SocketIntentView) ->
    DispatchStepView {
    if public_socket_path(client.socket_path) {
        dispatch_send(intent, DispatchStageView::Hello, RequestView::Hello)
    } else {
        dispatch_done(Err(WlErrorView::Config(BROKER_SOCKET_MESSAGE@)))
    }
}

/// The request that mutes the speaker.
pub open spec fn mute_speaker(vm: Seq<char>) -> RequestView {
    RequestView::AudioMute { vm, channel: AudioChannel::Speaker, mute: true }
}

/// What an answer to one request of an intent comes to.
pub open spec fn outcome_of(
    intent: SocketIntentView,
    reply: Result<Seq<u8>, WlErrorView>,
) -> Result<Seq<char>, WlErrorView> {
    match reply_document(reply) {
        Ok(document) => answered(intent, document),
        Err(error) => Err(error),
    }
}

/// How disabling audio ends: with a fatal failure of the speaker, or else a
/// failure of the microphone, or else whatever the speaker came to.
pub open spec fn audio_off_result(
    microphone: Option<WlErrorView>,
    speaker: Result<Seq<char>, WlErrorView>,
) -> Result<Seq<char>, WlErrorView> {
    if speaker is Err && is_fatal(speaker->Err_0) {
        speaker
    } else {
        match microphone {
            Some(error) => Err(error),
            None => speaker,
        }
    }
}

/// What a dispatch does with a reply.
pub open spec fn dispatch_next(
    session: DispatchSessionView,
    reply: Result<Seq<u8>, WlErrorView>,
) -> DispatchStepView {
    match session.stage {
        DispatchStageView::Hello => match handshake(reply) {
            Ok(()) => match first_request(session.intent) {
                Ok(request) => dispatch_send(session.intent, DispatchStageView::Answer, request),
                Err(error) => dispatch_done(Err(error)),
            },
            Err(error) => dispatch_done(Err(error)),
        },
        DispatchStageView::Answer => {
            let result = outcome_of(session.intent, reply);
            match session.intent {
                SocketIntentView::AudioOff { vm } => if result is Err && is_fatal(
                    result->Err_0,
                ) {
                    dispatch_done(result)
                } else {
                    dispatch_send(
                        session.intent,
                        DispatchStageView::Speaker {
                            microphone: match result {
                                Ok(summary) => None,
                                Err(error) => Some(error),
                            },
                        },
                        mute_speaker(vm),
                    )
                },
                _ => dispatch_done(result),
            }
        },
        DispatchStageView::Speaker { microphone } => dispatch_done(
            audio_off_result(microphone, outcome_of(session.intent, reply)),
        ),
    }
}

fn read_outcome(intent: &SocketIntent, reply: Reply) -> (summary: WlResult<String>)
    ensures
        result_view(summary) == outcome_of(intent@, result_view(reply)),
{
    match read_reply(reply) {
        Ok(document) => summarize(intent, &document),
        Err(error) => Err(error),
    }
}

fn end_audio_off(microphone: Option<WlError>, speaker: WlResult<String>) -> (result: WlResult<
    String,
>)
    ensures
        result_view(result) == audio_off_result(opt_view(microphone), result_view(speaker)),
{
    if let Err(error) = &speaker {
        if fatal(error) {
            return speaker;
        }
    }
    match microphone {
        Some(error) => Err(error),
        None => speaker,
    }
}

impl DispatchSession {
    /// Goes on with what came back for the last payload.
    pub fn reply(self, reply: Reply) -> (step: DispatchStep)
        ensures
            step@ == dispatch_next(self@, result_view(reply)),
    {
        let DispatchSession { intent, stage } = self;
        match stage {
            DispatchStage::Hello => match read_handshake(reply) {
                Ok(()) => match open_request(&intent) {
                    Ok(request) => send_dispatch(intent, DispatchStage::Answer, request),
                    Err(error) => finish_dispatch(Err(error)),
                },
                Err(error) => finish_dispatch(Err(error)),
            },
            DispatchStage::Answer => {
                let result = read_outcome(&intent, reply);
                let target = match &intent {
                    SocketIntent::AudioOff { vm } => vm.clone(),
                    _ => {
                        return finish_dispatch(result);
                    },
                };
                let microphone = match result {
                    Ok(_) => None,
                    Err(error) => if fatal(&error) {
                        return finish_dispatch(Err(error));
                    } else {
                        Some(error)
                    },
                };
                let request = Request::AudioMute {
                    vm: target,
                    channel: AudioChannel::Speaker,
                    mute: true,
                };
                send_dispatch(intent, DispatchStage::Speaker { microphone }, request)
            },
            DispatchStage::Speaker { microphone } => {
                let speaker = read_outcome(&intent, reply);
                finish_dispatch(end_audio_off(microphone, speaker))
            },
        }
    }
}

/// A public-socket client. It is cheap to construct and holds no connection, so
/// that the posture of the daemon is observed on every call.
pub struct NixlingClient {
    socket_path: String,
    timeout_ms: u64,
}

/// The mathematical form of [`NixlingClient`].
#[verifier::ext_equal]
pub struct NixlingClientView {
    pub socket_path: Seq<char>,
    pub timeout_ms: u64,
}

impl View for NixlingClient {
    type V = NixlingClientView;

    closed spec fn view(&self) -> NixlingClientView {
        NixlingClientView { socket_path: self.socket_path@, timeout_ms: self.timeout_ms }
    }
}

impl NixlingClient {
    /// Build a client from user configuration.
    pub fn new(config: &Config) -> (client: Self)
        ensures
            client@ == (NixlingClientView {
                socket_path: config@.public_socket,
                timeout_ms: config@.command_timeout_ms,
            }),
    {
        NixlingClient {
            socket_path: config.public_socket.clone(),
            timeout_ms: config.command_timeout_ms,
        }
    }

    /// The configured public-socket path.
    pub fn socket_path(&self) -> (path: &str)
        ensures
            path@ == self@.socket_path,
    {
        self.socket_path.as_str()
    }

    /// The per-operation timeout in milliseconds.
    pub fn timeout(&self) -> (timeout: u64)
        ensures
            timeout == self@.timeout_ms,
    {
        self.timeout_ms
    }

    /// Begin to dispatch a single typed intent. A configured socket that is not
    /// a public one is refused before anything is sent.
    pub fn dispatch(&self, intent: &SocketIntent) -> (step: DispatchStep)
        ensures
            step@ == dispatch_start(self@, intent@),
    {
        if !is_public_socket_path(self.socket_path.as_str()) {
            return finish_dispatch(Err(WlError::Config(BROKER_SOCKET_MESSAGE.to_owned())));
        }
        send_dispatch(intent.clone(), DispatchStage::Hello, Request::Hello)
    }
}

/// The end of a refresh.
pub open spec fn refresh_done(result: Result<ReduceInputView, WlErrorView>) -> RefreshStepView {
    RefreshStepView::Done { result }
}

/// The next payload of a refresh.
pub open spec fn refresh_send(stage: RefreshStageView, request: RequestView) -> RefreshStepView {
    RefreshStepView::Send { stage, payload: request_bytes(request) }
}

fn send_refresh(stage: RefreshStage, request: Request) -> (step: RefreshStep)
    ensures
        step@ == refresh_send(stage@, request@),
{
    match request_payload(&request) {
        Ok(payload) => RefreshStep::Send { stage, payload },
        Err(error) => RefreshStep::Done { result: Err(error) },
    }
}

/// The names of the declared VMs.
pub open spec fn vm_names(vms: Seq<InventoryVmView>) -> Seq<Seq<char>> {
    Seq::new(vms.len(), |i: int| vms[i].name)
}

/// Asks for the next status, or for the USB claims when none is left.
pub open spec fn ask_statuses(
    auth: Auth,
    inventory: InventoryView,
    statuses: Seq<VmStatusView>,
    rest: Seq<Seq<char>>,
) -> RefreshStepView {
    if rest.len() == 0 {
        refresh_send(
            RefreshStageView::Usb { auth, inventory, statuses },
            RequestView::UsbProbe,
        )
    } else {
        refresh_send(
            RefreshStageView::Status {
                auth,
                inventory,
                statuses,
                vm: rest[0],
                rest: rest.drop_first(),
            },
            RequestView::Status { vm: rest[0] },
        )
    }
}

/// The bundle of a successful refresh.
pub open spec fn refreshed(
    auth: Auth,
    inventory: InventoryView,
    statuses: Seq<VmStatusView>,
    usb: Option<UsbProbeView>,
    audio: Option<AudioStatusView>,
) -> ReduceInputView {
    ReduceInputView {
        connectivity: Connectivity::Connected,
        auth: Some(auth),
        inventory: Some(inventory),
        statuses,
        usb,
        audio,
    }
}

/// Whether some declared VM forwards audio.
pub open spec fn declares_audio(vms: Seq<InventoryVmView>) -> bool {
    exists|i: int| 0 <= i < vms.len() && (#[trigger] vms[i]).features.audio
}

/// The value of a success.
pub open spec fn success<T>(result: Result<T, WlErrorView>) -> Option<T> {
    match result {
        Ok(value) => Some(value),
        Err(error) => None,
    }
}

/// What the reply to an authorization request comes to.
pub open spec fn auth_outcome(reply: Result<Seq<u8>, WlErrorView>) -> Result<Auth, WlErrorView> {
    match reply_document(reply) {
        Ok(document) => auth_answer(document),
        Err(error) => Err(error),
    }
}

/// What the reply to a list request comes to.
pub open spec fn inventory_outcome(reply: Result<Seq<u8>, WlErrorView>) -> Result<
    InventoryView,
    WlErrorView,
> {
    match reply_document(reply) {
        Ok(document) => inventory_answer(document),
        Err(error) => Err(error),
    }
}

/// What the reply to a status request comes to.
pub open spec fn status_outcome(reply: Result<Seq<u8>, WlErrorView>, vm: Seq<char>) -> Result<
    VmStatusView,
    WlErrorView,
> {
    match reply_document(reply) {
        Ok(document) => status_answer(document, vm),
        Err(error) => Err(error),
    }
}

/// What the reply to a USB probe comes to.
pub open spec fn probe_outcome(reply: Result<Seq<u8>, WlErrorView>) -> Result<
    UsbProbeView,
    WlErrorView,
> {
    match reply_document(reply) {
        Ok(document) => probe_answer(document),
        Err(error) => Err(error),
    }
}

/// What the reply to an audio status request comes to.
pub open spec fn audio_outcome(reply: Result<Seq<u8>, WlErrorView>) -> Result<
    AudioStatusView,
    WlErrorView,
> {
    match reply_document(reply) {
        Ok(document) => audio_status_answer(document),
        Err(error) => Err(error),
    }
}

/// How a refresh begins: with the hello message, unless the configured socket is
/// not a public one.
pub open spec fn refresh_start(client: NixlingClientView) -> RefreshStepView {
    if public_socket_path(client.socket_path) {
        refresh_send(RefreshStageView::Hello, RequestView::Hello)
    } else {
        refresh_done(Err(WlErrorView::Config(BROKER_SOCKET_MESSAGE@)))
    }
}

/// What a refresh does with a reply. Without the authorization or the inventory
/// the refresh fails; a status, the USB claims or the audio status that cannot
/// be had are left out.
pub open spec fn refresh_next(
    stage: RefreshStageView,
    reply: Result<Seq<u8>, WlErrorView>,
) -> RefreshStepView {
    match stage {
        RefreshStageView::Hello => match handshake(reply) {
            Ok(()) => refresh_send(RefreshStageView::Auth, RequestView::AuthStatus),
            Err(error) => refresh_done(Err(error)),
        },
        RefreshStageView::Auth => match auth_outcome(reply) {
            Ok(auth) => refresh_send(RefreshStageView::List { auth }, RequestView::List),
            Err(error) => refresh_done(Err(error)),
        },
        RefreshStageView::List { auth } => match inventory_outcome(reply) {
            Ok(inventory) => ask_statuses(
                auth,
                inventory,
                Seq::empty(),
                vm_names(inventory.vms),
            ),
            Err(error) => refresh_done(Err(error)),
        },
        RefreshStageView::Status { auth, inventory, statuses, vm, rest } => ask_statuses(
            auth,
            inventory,
            match status_outcome(reply, vm) {
                Ok(status) => statuses.push(status),
                Err(error) => statuses,
            },
            rest,
        ),
        RefreshStageView::Usb { auth, inventory, statuses } => {
            let usb = success(probe_outcome(reply));
            if declares_audio(inventory.vms) {
                refresh_send(
                    RefreshStageView::Audio { auth, inventory, statuses, usb },
                    RequestView::AudioStatus,
                )
            } else {
                refresh_done(Ok(refreshed(auth, inventory, statuses, usb, None)))
            }
        },
        RefreshStageView::Audio { auth, inventory, statuses, usb } => refresh_done(
            Ok(refreshed(auth, inventory, statuses, usb, success(audio_outcome(reply)))),
        ),
    }
}

fn list_names(inventory: &Inventory) -> (names: Vec<String>)
    ensures
        views(names@) == vm_names(inventory@.vms),
{
    let mut names: Vec<String> = Vec::new();
    let mut i: usize = 0;
    while i < inventory.vms.len()
        invariant
            i <= inventory.vms@.len(),
            names@.len() == i,
            forall|k: int|
                0 <= k < i ==> (#[trigger] names@[k])@ == inventory@.vms[k].name,
        decreases inventory.vms@.len() - i,
    {
        names.push(inventory.vms[i].name.clone());
        i = i + 1;
    }
    assert(views(names@) =~= vm_names(inventory@.vms));
    names
}

pub(crate) fn some_audio(inventory: &Inventory) -> (yes: bool)
    ensures
        yes == declares_audio(inventory@.vms),
{
    let mut i: usize = 0;
    while i < inventory.vms.len()
        invariant
            i <= inventory.vms@.len(),
            forall|k: int| 0 <= k < i ==> !(#[trigger] inventory@.vms[k]).features.audio,
        decreases inventory.vms@.len() - i,
    {
        assert(inventory@.vms[i as int] == inventory.vms@[i as int]@);
        if inventory.vms[i].features.audio {
            return true;
        }
        i = i + 1;
    }
    false
}

fn continue_statuses(
    auth: Auth,
    inventory: Inventory,
    statuses: Vec<VmStatus>,
    rest: Vec<String>,
) -> (step: RefreshStep)
    ensures
        step@ == ask_statuses(auth, inventory@, views(statuses@), views(rest@)),
{
    if rest.len() == 0 {
        send_refresh(RefreshStage::Usb { auth, inventory, statuses }, Request::UsbProbe)
    } else {
        let mut rest = rest;
        let ghost names = views(rest@);
        let vm = rest.remove(0);
        assert(views(rest@) =~= names.drop_first());
        let request = Request::Status { vm: vm.clone() };
        send_refresh(RefreshStage::Status { auth, inventory, statuses, vm, rest }, request)
    }
}

fn read_status(reply: Reply, vm: &String) -> (status: WlResult<VmStatus>)
    ensures
        result_view(status) == status_outcome(result_view(reply), vm@),
{
    match read_reply(reply) {
        Ok(document) => status_from_reply(&document, vm.as_str()),
        Err(error) => Err(error),
    }
}

fn read_probe(reply: Reply) -> (usb: Option<UsbProbe>)
    ensures
        opt_view(usb) == success(probe_outcome(result_view(reply))),
{
    match read_reply(reply) {
        Ok(document) => match usb_probe_from_reply(&document) {
            Ok(probe) => Some(probe),
            Err(_) => None,
        },
        Err(_) => None,
    }
}

pub(crate) fn read_audio(reply: Reply) -> (audio: Option<AudioStatus>)
    ensures
        opt_view(audio) == success(audio_outcome(result_view(reply))),
{
    match read_reply(reply) {
        Ok(document) => match audio_status_from_reply(&document) {
            Ok(status) => Some(status),
            Err(_) => None,
        },
        Err(_) => None,
    }
}

fn finish_refresh(
    auth: Auth,
    inventory: Inventory,
    statuses: Vec<VmStatus>,
    usb: Option<UsbProbe>,
    audio: Option<AudioStatus>,
) -> (step: RefreshStep)
    ensures
        step@ == refresh_done(
            Ok(refreshed(auth, inventory@, views(statuses@), opt_view(usb), opt_view(audio))),
        ),
{
    RefreshStep::Done {
        result: Ok(
            ReduceInput {
                connectivity: Connectivity::Connected,
                auth: Some(auth),
                inventory: Some(inventory),
                statuses,
                usb,
                audio,
            },
        ),
    }
}

impl RefreshStage {
    /// Goes on with what came back for the last payload.
    pub fn reply(self, reply: Reply) -> (step: RefreshStep)
        ensures
            step@ == refresh_next(self@, result_view(reply)),
    {
        match self {
            RefreshStage::Hello => match read_handshake(reply) {
                Ok(()) => send_refresh(RefreshStage::Auth, Request::AuthStatus),
                Err(error) => RefreshStep::Done { result: Err(error) },
            },
            RefreshStage::Auth => {
                let auth = match read_reply(reply) {
                    Ok(document) => auth_from_reply(&document),
                    Err(error) => Err(error),
                };
                match auth {
                    Ok(auth) => send_refresh(RefreshStage::List { auth }, Request::List),
                    Err(error) => RefreshStep::Done { result: Err(error) },
                }
            },
            RefreshStage::List { auth } => {
                let inventory = match read_reply(reply) {
                    Ok(document) => inventory_from_reply(&document),
                    Err(error) => Err(error),
                };
                match inventory {
                    Ok(inventory) => {
                        let rest = list_names(&inventory);
                        let statuses: Vec<VmStatus> = Vec::new();
                        assert(views(statuses@) =~= Seq::<VmStatusView>::empty());
                        continue_statuses(auth, inventory, statuses, rest)
                    },
                    Err(error) => RefreshStep::Done { result: Err(error) },
                }
            },
            RefreshStage::Status { auth, inventory, statuses, vm, rest } => {
                let mut statuses = statuses;
                let ghost before = views(statuses@);
                if let Ok(status) = read_status(reply, &vm) {
                    statuses.push(status);
                    assert(views(statuses@) =~= before.push(status@));
                }
                continue_statuses(auth, inventory, statuses, rest)
            },
            RefreshStage::Usb { auth, inventory, statuses } => {
                let usb = read_probe(reply);
                if some_audio(&inventory) {
                    send_refresh(
                        RefreshStage::Audio { auth, inventory, statuses, usb },
                        Request::AudioStatus,
                    )
                } else {
                    finish_refresh(auth, inventory, statuses, usb, None)
                }
            },
            RefreshStage::Audio { auth, inventory, statuses, usb } => {
                let audio = read_audio(reply);
                finish_refresh(auth, inventory, statuses, usb, audio)
            },
        }
    }
}

/// What a refresh outcome is to the reducer: the bundle of a successful refresh;
/// after a refusal a reachable daemon without a role; after any other failure a
/// daemon that is down.
pub open spec fn refresh_input(outcome: Result<ReduceInputView, WlErrorView>) -> ReduceInputView {
    match outcome {
        Ok(input) => input,
        Err(WlErrorView::Denied(text)) => bare_input(
            Connectivity::Connected,
            Some(Auth { role: AuthRole::NoRole }),
        ),
        Err(error) => bare_input(Connectivity::DaemonDown, None),
    }
}

/// How a refresh with this outcome ended: a refusal settles it like an answer; any
/// other failure means that the daemon was lost where a connection stood, and that
/// it is unreachable where none did.
pub open spec fn end_of(
    outcome: Result<ReduceInputView, WlErrorView>,
    connected: bool,
) -> RefreshEnd {
    match outcome {
        Ok(input) => RefreshEnd::Settled,
        Err(WlErrorView::Denied(text)) => RefreshEnd::Settled,
        Err(error) => if connected {
            RefreshEnd::Lost
        } else {
            RefreshEnd::Unreachable
        },
    }
}

/// Tells how a refresh ended. `connected` says whether a connection to the daemon
/// stood when it did.
pub fn refresh_end(outcome: &WlResult<ReduceInput>, connected: bool) -> (end: RefreshEnd)
    ensures
        end == end_of(result_view(*outcome), connected),
{
    match outcome {
        Ok(_) => RefreshEnd::Settled,
        Err(WlError::Denied(_)) => RefreshEnd::Settled,
        Err(_) => if connected {
            RefreshEnd::Lost
        } else {
            RefreshEnd::Unreachable
        },
    }
}

impl NixlingClient {
    /// Begin a refresh: auth, inventory, per-VM statuses, USB claims and audio
    /// status. A configured socket that is not a public one is refused before
    /// anything is sent.
    pub fn try_refresh(&self) -> (step: RefreshStep)
        ensures
            step@ == refresh_start(self@),
    {
        if !is_public_socket_path(self.socket_path.as_str()) {
            return RefreshStep::Done {
                result: Err(WlError::Config(BROKER_SOCKET_MESSAGE.to_owned())),
            };
        }
        send_refresh(RefreshStage::Hello, Request::Hello)
    }

    /// Turn the outcome of a refresh into the fragments the reducer consumes: a
    /// failed refresh degrades, it never looks healthy.
    pub fn refresh(&self, outcome: WlResult<ReduceInput>) -> (input: ReduceInput)
        ensures
            input@ == refresh_input(result_view(outcome)),
    {
        match outcome {
            Ok(input) => input,
            Err(WlError::Denied(_)) => {
                let mut input = ReduceInput::default();
                input.connectivity = Connectivity::Connected;
                input.auth = Some(Auth { role: AuthRole::NoRole });
                input
            },
            Err(_) => ReduceInput::default(),
        }
    }
}

/// A configured socket that is not a public one is refused before anything is
/// sent, whatever is asked for.
pub proof fn law_broker_socket_is_never_used(client: NixlingClientView, intent: SocketIntentView)
    requires
        !public_socket_path(client.socket_path),
    ensures
        dispatch_start(client, intent) == dispatch_done(
            Err(WlErrorView::Config(BROKER_SOCKET_MESSAGE@)),
        ),
        refresh_start(client) == refresh_done(Err(WlErrorView::Config(BROKER_SOCKET_MESSAGE@))),
{
}

/// On a public socket every conversation opens with the hello message.
pub proof fn law_hello_comes_first(client: NixlingClientView, intent: SocketIntentView)
    requires
        public_socket_path(client.socket_path),
    ensures
        dispatch_start(client, intent) matches DispatchStepView::Send { payload, .. } && payload
            == request_bytes(RequestView::Hello),
        refresh_start(client) matches RefreshStepView::Send { payload, .. } && payload
            == request_bytes(RequestView::Hello),
{
}

/// Nothing is asked of a daemon that did not accept the hello message: the
/// conversation ends with the reason.
pub proof fn law_refused_hello_ends_it(
    intent: SocketIntentView,
    reply: Result<Seq<u8>, WlErrorView>,
)
    requires
        handshake(reply) is Err,
    ensures
        dispatch_next(
            DispatchSessionView { intent, stage: DispatchStageView::Hello },
            reply,
        ) == dispatch_done(Err(handshake(reply)->Err_0)),
        refresh_next(RefreshStageView::Hello, reply) == refresh_done(Err(handshake(reply)->Err_0)),
{
}

/// A daemon is only talked to when it selected a version that this client
/// speaks.
pub proof fn law_version_is_checked(bytes: Seq<u8>)
    requires
        handshake(Ok(bytes)) is Ok,
    ensures
        parsed(bytes) is Ok,
        parsed(bytes)->Ok_0.text_field("selectedVersion"@) is Some,
        crate::reply::version_supported(
            parsed(bytes)->Ok_0.text_field("selectedVersion"@)->Some_0,
        ),
{
}

/// Whether an intent changes a VM through the daemon's verbs.
pub open spec fn is_mutation(intent: SocketIntentView) -> bool {
    intent is VmStart || intent is VmStop || intent is VmRestart || intent is Switch
        || intent is Boot || intent is UsbAttach || intent is UsbDetach
}

/// A change is reported as done only when the daemon says it was applied.
pub proof fn law_only_applied_succeeds(
    intent: SocketIntentView,
    reply: Result<Seq<u8>, WlErrorView>,
)
    requires
        is_mutation(intent),
        dispatch_next(
            DispatchSessionView { intent, stage: DispatchStageView::Answer },
            reply,
        ) matches DispatchStepView::Done { result } && result is Ok,
    ensures
        reply is Ok,
        parsed(reply->Ok_0) is Ok,
        ({
            let document = parsed(reply->Ok_0)->Ok_0;
            let answer = crate::reply::answer_of(
                document,
                "mutatingVerbResponse"@,
                "mutating verb"@,
                None,
            );
            &&& reported_error(document) is None
            &&& answer is Ok
            &&& crate::reply::described_outcome(answer->Ok_0) is Some
            &&& crate::reply::described_outcome(answer->Ok_0)->Some_0.outcome == "applied"@
        }),
{
}

/// An error reply, a reply that is no JSON document, and a failed transport all
/// end a dispatch of one request with that error.
pub proof fn law_error_reply_fails(intent: SocketIntentView, reply: Result<Seq<u8>, WlErrorView>)
    requires
        !(intent is AudioOff),
        reply_document(reply) is Err,
    ensures
        dispatch_next(
            DispatchSessionView { intent, stage: DispatchStageView::Answer },
            reply,
        ) == dispatch_done(Err(reply_document(reply)->Err_0)),
{
}

/// How many replies a dispatch can still wait for.
pub open spec fn dispatch_left(session: DispatchSessionView) -> nat {
    match session.stage {
        DispatchStageView::Hello => 3,
        DispatchStageView::Answer => 2,
        DispatchStageView::Speaker { .. } => 1,
    }
}

/// Every dispatch ends: each reply leaves fewer to wait for.
pub proof fn law_dispatch_ends(
    session: DispatchSessionView,
    reply: Result<Seq<u8>, WlErrorView>,
)
    ensures
        dispatch_next(session, reply) matches DispatchStepView::Send { session: next, .. }
            ==> dispatch_left(next) < dispatch_left(session) && next.intent == session.intent,
{
}

/// Where a refresh stands: the stage, and within the statuses how many are left.
pub open spec fn refresh_left(stage: RefreshStageView) -> (nat, nat) {
    match stage {
        RefreshStageView::Hello => (5, 0),
        RefreshStageView::Auth => (4, 0),
        RefreshStageView::List { .. } => (3, 0),
        RefreshStageView::Status { rest, .. } => (2, rest.len()),
        RefreshStageView::Usb { .. } => (1, 0),
        RefreshStageView::Audio { .. } => (0, 0),
    }
}

/// Every refresh ends: each reply moves it to a later stage, or to the status of
/// the next VM.
pub proof fn law_refresh_ends(stage: RefreshStageView, reply: Result<Seq<u8>, WlErrorView>)
    ensures
        refresh_next(stage, reply) matches RefreshStepView::Send { stage: next, .. } ==> (
        refresh_left(next).0 < refresh_left(stage).0 || (refresh_left(next).0 == refresh_left(
            stage,
        ).0 && refresh_left(next).1 < refresh_left(stage).1)),
{
}

/// A refresh succeeds only with an authorization and an inventory: it never
/// passes off a daemon that stopped answering as one without VMs.
pub proof fn law_refresh_is_never_hollow(
    stage: RefreshStageView,
    reply: Result<Seq<u8>, WlErrorView>,
)
    requires
        refresh_next(stage, reply) matches RefreshStepView::Done { result } && result is Ok,
    ensures
        ({
            let input = refresh_next(stage, reply)->result->Ok_0;
            &&& input.connectivity == Connectivity::Connected
            &&& input.auth is Some
            &&& input.inventory is Some
        }),
{
}

/// A failed refresh shows no VM: as denied after a refusal, and as a daemon that
/// is down after any other failure.
pub proof fn law_failed_refresh_degrades(error: WlErrorView, config: ConfigView)
    ensures
        ({
            let state = crate::reduce::reduced(refresh_input(Err(error)), config);
            &&& state.vms.len() == 0
            &&& state.role == AuthRole::NoRole
            &&& state.connectivity == if error is Denied {
                Connectivity::AuthDenied
            } else {
                Connectivity::DaemonDown
            }
        }),
{
    let input = refresh_input(Err(error));
    if error is Denied {
        crate::reduce::law_every_declared_vm_is_shown(input, config);
    }
}

/// A refresh that fails after the daemon was reached shows the last state, marked
/// as stale, or a daemon that is down where there is none. A refusal is shown as
/// such.
pub proof fn law_lost_refresh_reuses_the_last_state(
    last: WlStateView,
    error: WlErrorView,
    config: ConfigView,
)
    ensures
        ({
            let fresh = crate::reduce::reduced(refresh_input(Err(error)), config);
            let end = end_of(Err(error), true);
            &&& !(error is Denied) ==> carried(Some(last), fresh, end) == (WlStateView {
                stale: true,
                ..last
            })
            &&& !(error is Denied) ==> carried(None, fresh, end) == crate::model::blank_state()
            &&& error is Denied ==> carried(Some(last), fresh, end) == fresh && fresh.connectivity
                == Connectivity::AuthDenied
        }),
{
    law_failed_refresh_degrades(error, config);
}

/// A daemon that cannot be reached is shown as down, whatever was shown before.
pub proof fn law_unreachable_daemon_is_down(
    last: Option<WlStateView>,
    error: WlErrorView,
    config: ConfigView,
)
    requires
        !(error is Denied),
    ensures
        carried(
            last,
            crate::reduce::reduced(refresh_input(Err(error)), config),
            end_of(Err(error), false),
        ) == crate::model::blank_state(),
{
    law_failed_refresh_degrades(error, config);
}

/// Disabling audio is reported as done only after both channels were muted.
pub proof fn law_audio_off_needs_both(
    session: DispatchSessionView,
    reply: Result<Seq<u8>, WlErrorView>,
)
    requires
        session.intent is AudioOff,
        dispatch_next(session, reply) matches DispatchStepView::Done { result } && result is Ok,
    ensures
        session.stage == (DispatchStageView::Speaker { microphone: None }),
        outcome_of(session.intent, reply) is Ok,
{
}

/// The speaker is muted even where the microphone fails, unless that failure
/// shows that the connection is of no further use.
pub proof fn law_audio_off_tries_the_speaker(vm: Seq<char>, reply: Result<Seq<u8>, WlErrorView>)
    requires
        ({
            let result = outcome_of(SocketIntentView::AudioOff { vm }, reply);
            result is Ok || !is_fatal(result->Err_0)
        }),
    ensures
        dispatch_next(
            DispatchSessionView {
                intent: SocketIntentView::AudioOff { vm },
                stage: DispatchStageView::Answer,
            },
            reply,
        ) matches DispatchStepView::Send { payload, .. } && payload == request_bytes(
            mute_speaker(vm),
        ),
{
}

/// A level over one hundred percent is never sent.
pub proof fn law_levels_stay_in_range(
    vm: Seq<char>,
    channel: AudioChannel,
    level_percent: u8,
    reply: Result<Seq<u8>, WlErrorView>,
)
    requires
        level_percent > 100,
    ensures
        dispatch_next(
            DispatchSessionView {
                intent: SocketIntentView::AudioSetVolume { vm, channel, level_percent },
                stage: DispatchStageView::Hello,
            },
            reply,
        ) is Done,
{
}

} // verus!
