//! Sessions: what is sent to the daemon, and what becomes of its replies.

use vstd::prelude::*;

use crate::client::{
    DispatchOutcomeView, DispatchSessionView, DispatchStageView, DispatchStepView,
    NixlingClientView, RefreshStageView, RefreshStepView, dispatch_next, dispatch_start,
    end_of, refresh_input, refresh_next, refresh_start,
};
use crate::d2b::{ModelStageView, ModelStepView, d2b_step, model_next, model_start};
use crate::error::WlErrorView;
use crate::json::{JsonView, lemma_member_is_found, parsed, written};
use crate::model::{AudioChannel, AuthRole, Connectivity, RuntimeState, SocketIntentView};
use crate::protocol::{RequestView, lemma_request_writable, request_bytes, request_document};
use crate::reduce::RefreshEnd;
use crate::reply::{
    audio_op_answer, audio_status_answer, auth_answer, hello_verdict, inventory_answer,
    model_answer, mutation_answer, probe_answer, reported_error, status_answer, store_answer,
    version_supported,
};
use crate::sources::{
    AudioStatusView, Auth, InventoryView, ReduceInputView, StatusModelView, UsbProbeView,
    VmStatusView,
};
use crate::text::decimal;

use super::replies::{
    is_error, is_hello, law_hello_is_accepted, law_only_error_replies_report_errors,
};

verus! {

/// Whether a document is an object of exactly these members.
pub open spec fn has_members(document: JsonView, members: Seq<(Seq<char>, JsonView)>) -> bool {
    &&& document is Object
    &&& document->Object_0.len() == members.len()
    &&& forall|k: int|
        0 <= k < members.len() ==> document.field((#[trigger] members[k]).0) == Some(members[k].1)
}

/// Whether a payload is the text of a document of exactly these members.
pub open spec fn payload_has(payload: Seq<u8>, members: Seq<(Seq<char>, JsonView)>) -> bool {
    exists|document: JsonView|
        #![trigger has_members(document, members)]
        has_members(document, members) && payload == vstd::utf8::encode_utf8(written(document))
}

/// Whether a step of a dispatch sends a document of exactly these members and then
/// waits for the answer to the intent.
pub open spec fn asks_with(
    step: DispatchStepView,
    intent: SocketIntentView,
    members: Seq<(Seq<char>, JsonView)>,
) -> bool {
    &&& step is Send
    &&& payload_has(step->payload, members)
    &&& step->session == (DispatchSessionView { intent, stage: DispatchStageView::Answer })
}

/// A dispatch that has sent its hello message.
pub open spec fn greeting(intent: SocketIntentView) -> DispatchSessionView {
    DispatchSessionView { intent, stage: DispatchStageView::Hello }
}

/// A dispatch that has sent its request.
pub open spec fn waiting(intent: SocketIntentView) -> DispatchSessionView {
    DispatchSessionView { intent, stage: DispatchStageView::Answer }
}

/// Whether a reply is a hello that selects a version this client speaks.
pub open spec fn is_greeted(reply: Result<Seq<u8>, WlErrorView>) -> bool {
    &&& reply is Ok
    &&& parsed(reply->Ok_0) is Ok
    &&& {
        let document = parsed(reply->Ok_0)->Ok_0;
        &&& !is_error(document)
        &&& is_hello(document)
        &&& document.text_field("selectedVersion"@) is Some
        &&& version_supported(document.text_field("selectedVersion"@)->Some_0)
    }
}

/// Whether a reply is a document that reports no error.
pub open spec fn answers_with(reply: Result<Seq<u8>, WlErrorView>, document: JsonView) -> bool {
    &&& reply is Ok
    &&& parsed(reply->Ok_0) == Ok::<JsonView, Seq<char>>(document)
    &&& !is_error(document)
}

proof fn lemma_greeted(reply: Result<Seq<u8>, WlErrorView>)
    ensures
        is_greeted(reply) <==> crate::client::handshake(reply) is Ok,
{
    if reply is Ok && parsed(reply->Ok_0) is Ok {
        law_hello_is_accepted(parsed(reply->Ok_0)->Ok_0);
    }
}

proof fn lemma_answers(reply: Result<Seq<u8>, WlErrorView>, document: JsonView)
    requires
        answers_with(reply, document),
    ensures
        crate::client::reply_document(reply) == Ok::<JsonView, WlErrorView>(document),
{
    law_only_error_replies_report_errors(document);
}

proof fn lemma_request(request: RequestView, members: Seq<(Seq<char>, JsonView)>)
    requires
        request_document(request) == JsonView::Object(members),
    ensures
        payload_has(request_bytes(request), members),
{
    lemma_request_writable(request);
    let document = request_document(request);
    assert(crate::json::distinct_names(members));
    assert forall|k: int| 0 <= k < members.len() implies document.field((#[trigger] members[k]).0)
        == Some(members[k].1) by {
        lemma_member_is_found(members, k);
    }
    assert(has_members(document, members));
}

/// Starting a VM sends `vmStart`, not waiting for the guest.
pub proof fn law_start_is_sent(
    vm: Seq<char>,
    reply: Result<Seq<u8>, WlErrorView>,
)
    requires
        is_greeted(reply),
    ensures
        asks_with(
            dispatch_next(greeting(SocketIntentView::VmStart { vm }), reply),
            SocketIntentView::VmStart { vm },
            seq![
            ("apply"@, JsonView::Bool(true)),
            ("dryRun"@, JsonView::Bool(false)),
            ("json"@, JsonView::Bool(true)),
            ("noWaitApi"@, JsonView::Bool(true)),
            ("type"@, JsonView::Text("vmStart"@)),
            ("vm"@, JsonView::Text(vm)),
            ],
        ),
{
    lemma_greeted(reply);
    lemma_request(
        RequestView::VmStart { vm },
        seq![
        ("apply"@, JsonView::Bool(true)),
        ("dryRun"@, JsonView::Bool(false)),
        ("json"@, JsonView::Bool(true)),
        ("noWaitApi"@, JsonView::Bool(true)),
        ("type"@, JsonView::Text("vmStart"@)),
        ("vm"@, JsonView::Text(vm)),
        ],
    );
}

/// Stopping a VM sends `vmStop`, without force.
pub proof fn law_stop_is_sent(
    vm: Seq<char>,
    reply: Result<Seq<u8>, WlErrorView>,
)
    requires
        is_greeted(reply),
    ensures
        asks_with(
            dispatch_next(greeting(SocketIntentView::VmStop { vm, force: false }), reply),
            SocketIntentView::VmStop { vm, force: false },
            seq![
            ("apply"@, JsonView::Bool(true)),
            ("dryRun"@, JsonView::Bool(false)),
            ("json"@, JsonView::Bool(true)),
            ("type"@, JsonView::Text("vmStop"@)),
            ("vm"@, JsonView::Text(vm)),
            ],
        ),
{
    lemma_greeted(reply);
    lemma_request(
        RequestView::VmStop { vm, force: false },
        seq![
        ("apply"@, JsonView::Bool(true)),
        ("dryRun"@, JsonView::Bool(false)),
        ("json"@, JsonView::Bool(true)),
        ("type"@, JsonView::Text("vmStop"@)),
        ("vm"@, JsonView::Text(vm)),
        ],
    );
}

/// Stopping a VM by force sends `vmStop` with force.
pub proof fn law_forced_stop_is_sent(
    vm: Seq<char>,
    reply: Result<Seq<u8>, WlErrorView>,
)
    requires
        is_greeted(reply),
    ensures
        asks_with(
            dispatch_next(greeting(SocketIntentView::VmStop { vm, force: true }), reply),
            SocketIntentView::VmStop { vm, force: true },
            seq![
            ("apply"@, JsonView::Bool(true)),
            ("dryRun"@, JsonView::Bool(false)),
            ("force"@, JsonView::Bool(true)),
            ("json"@, JsonView::Bool(true)),
            ("type"@, JsonView::Text("vmStop"@)),
            ("vm"@, JsonView::Text(vm)),
            ],
        ),
{
    lemma_greeted(reply);
    lemma_request(
        RequestView::VmStop { vm, force: true },
        seq![
        ("apply"@, JsonView::Bool(true)),
        ("dryRun"@, JsonView::Bool(false)),
        ("force"@, JsonView::Bool(true)),
        ("json"@, JsonView::Bool(true)),
        ("type"@, JsonView::Text("vmStop"@)),
        ("vm"@, JsonView::Text(vm)),
        ],
    );
}

/// Restarting a VM sends `vmRestart`, not waiting for the guest.
pub proof fn law_restart_is_sent(
    vm: Seq<char>,
    reply: Result<Seq<u8>, WlErrorView>,
)
    requires
        is_greeted(reply),
    ensures
        asks_with(
            dispatch_next(greeting(SocketIntentView::VmRestart { vm }), reply),
            SocketIntentView::VmRestart { vm },
            seq![
            ("apply"@, JsonView::Bool(true)),
            ("dryRun"@, JsonView::Bool(false)),
            ("json"@, JsonView::Bool(true)),
            ("noWaitApi"@, JsonView::Bool(true)),
            ("type"@, JsonView::Text("vmRestart"@)),
            ("vm"@, JsonView::Text(vm)),
            ],
        ),
{
    lemma_greeted(reply);
    lemma_request(
        RequestView::VmRestart { vm },
        seq![
        ("apply"@, JsonView::Bool(true)),
        ("dryRun"@, JsonView::Bool(false)),
        ("json"@, JsonView::Bool(true)),
        ("noWaitApi"@, JsonView::Bool(true)),
        ("type"@, JsonView::Text("vmRestart"@)),
        ("vm"@, JsonView::Text(vm)),
        ],
    );
}

/// Switching a VM sends `switch`.
pub proof fn law_switch_is_sent(
    vm: Seq<char>,
    reply: Result<Seq<u8>, WlErrorView>,
)
    requires
        is_greeted(reply),
    ensures
        asks_with(
            dispatch_next(greeting(SocketIntentView::Switch { vm }), reply),
            SocketIntentView::Switch { vm },
            seq![
            ("apply"@, JsonView::Bool(true)),
            ("dryRun"@, JsonView::Bool(false)),
            ("json"@, JsonView::Bool(true)),
            ("type"@, JsonView::Text("switch"@)),
            ("vm"@, JsonView::Text(vm)),
            ],
        ),
{
    lemma_greeted(reply);
    lemma_request(
        RequestView::Switch { vm },
        seq![
        ("apply"@, JsonView::Bool(true)),
        ("dryRun"@, JsonView::Bool(false)),
        ("json"@, JsonView::Bool(true)),
        ("type"@, JsonView::Text("switch"@)),
        ("vm"@, JsonView::Text(vm)),
        ],
    );
}

/// Changing the boot generation of a VM sends `boot`.
pub proof fn law_boot_is_sent(
    vm: Seq<char>,
    reply: Result<Seq<u8>, WlErrorView>,
)
    requires
        is_greeted(reply),
    ensures
        asks_with(
            dispatch_next(greeting(SocketIntentView::Boot { vm }), reply),
            SocketIntentView::Boot { vm },
            seq![
            ("apply"@, JsonView::Bool(true)),
            ("dryRun"@, JsonView::Bool(false)),
            ("json"@, JsonView::Bool(true)),
            ("type"@, JsonView::Text("boot"@)),
            ("vm"@, JsonView::Text(vm)),
            ],
        ),
{
    lemma_greeted(reply);
    lemma_request(
        RequestView::Boot { vm },
        seq![
        ("apply"@, JsonView::Bool(true)),
        ("dryRun"@, JsonView::Bool(false)),
        ("json"@, JsonView::Bool(true)),
        ("type"@, JsonView::Text("boot"@)),
        ("vm"@, JsonView::Text(vm)),
        ],
    );
}

/// Attaching a device sends `usbipBind` with its VM and busid.
pub proof fn law_attach_is_sent(
    vm: Seq<char>,
    bus_id: Seq<char>,
    reply: Result<Seq<u8>, WlErrorView>,
)
    requires
        is_greeted(reply),
    ensures
        asks_with(
            dispatch_next(greeting(SocketIntentView::UsbAttach { vm, bus_id }), reply),
            SocketIntentView::UsbAttach { vm, bus_id },
            seq![
            ("apply"@, JsonView::Bool(true)),
            ("busId"@, JsonView::Text(bus_id)),
            ("dryRun"@, JsonView::Bool(false)),
            ("json"@, JsonView::Bool(true)),
            ("type"@, JsonView::Text("usbipBind"@)),
            ("vm"@, JsonView::Text(vm)),
            ],
        ),
{
    lemma_greeted(reply);
    lemma_request(
        RequestView::UsbBind { vm, bus_id },
        seq![
        ("apply"@, JsonView::Bool(true)),
        ("busId"@, JsonView::Text(bus_id)),
        ("dryRun"@, JsonView::Bool(false)),
        ("json"@, JsonView::Bool(true)),
        ("type"@, JsonView::Text("usbipBind"@)),
        ("vm"@, JsonView::Text(vm)),
        ],
    );
}

/// Detaching a device sends `usbipUnbind` with its VM and busid.
pub proof fn law_detach_is_sent(
    vm: Seq<char>,
    bus_id: Seq<char>,
    reply: Result<Seq<u8>, WlErrorView>,
)
    requires
        is_greeted(reply),
    ensures
        asks_with(
            dispatch_next(greeting(SocketIntentView::UsbDetach { vm, bus_id }), reply),
            SocketIntentView::UsbDetach { vm, bus_id },
            seq![
            ("apply"@, JsonView::Bool(true)),
            ("busId"@, JsonView::Text(bus_id)),
            ("dryRun"@, JsonView::Bool(false)),
            ("json"@, JsonView::Bool(true)),
            ("type"@, JsonView::Text("usbipUnbind"@)),
            ("vm"@, JsonView::Text(vm)),
            ],
        ),
{
    lemma_greeted(reply);
    lemma_request(
        RequestView::UsbUnbind { vm, bus_id },
        seq![
        ("apply"@, JsonView::Bool(true)),
        ("busId"@, JsonView::Text(bus_id)),
        ("dryRun"@, JsonView::Bool(false)),
        ("json"@, JsonView::Bool(true)),
        ("type"@, JsonView::Text("usbipUnbind"@)),
        ("vm"@, JsonView::Text(vm)),
        ],
    );
}

/// Verifying a store sends `storeVerify`, without repair.
pub proof fn law_store_verification_is_sent(
    vm: Seq<char>,
    reply: Result<Seq<u8>, WlErrorView>,
)
    requires
        is_greeted(reply),
    ensures
        asks_with(
            dispatch_next(greeting(SocketIntentView::StoreVerify { vm }), reply),
            SocketIntentView::StoreVerify { vm },
            seq![
            ("repair"@, JsonView::Bool(false)),
            ("type"@, JsonView::Text("storeVerify"@)),
            ("vm"@, JsonView::Text(vm)),
            ],
        ),
{
    lemma_greeted(reply);
    lemma_request(
        RequestView::StoreVerify { vm },
        seq![
        ("repair"@, JsonView::Bool(false)),
        ("type"@, JsonView::Text("storeVerify"@)),
        ("vm"@, JsonView::Text(vm)),
        ],
    );
}

/// Asking for the listing sends `list`, for every environment and VM.
pub proof fn law_listing_is_asked_for(
    reply: Result<Seq<u8>, WlErrorView>,
)
    requires
        is_greeted(reply),
    ensures
        asks_with(
            dispatch_next(greeting(SocketIntentView::List), reply),
            SocketIntentView::List,
            seq![
            ("env"@, JsonView::Null),
            ("type"@, JsonView::Text("list"@)),
            ("vm"@, JsonView::Null),
            ],
        ),
{
    lemma_greeted(reply);
    lemma_request(
        RequestView::List,
        seq![
        ("env"@, JsonView::Null),
        ("type"@, JsonView::Text("list"@)),
        ("vm"@, JsonView::Null),
        ],
    );
}

/// Asking for the status of a VM sends `status`, without a look at the bridges.
pub proof fn law_status_is_asked_for(
    vm: Seq<char>,
    reply: Result<Seq<u8>, WlErrorView>,
)
    requires
        is_greeted(reply),
    ensures
        asks_with(
            dispatch_next(greeting(SocketIntentView::Status { vm }), reply),
            SocketIntentView::Status { vm },
            seq![
            ("checkBridges"@, JsonView::Bool(false)),
            ("type"@, JsonView::Text("status"@)),
            ("vm"@, JsonView::Text(vm)),
            ],
        ),
{
    lemma_greeted(reply);
    lemma_request(
        RequestView::Status { vm },
        seq![
        ("checkBridges"@, JsonView::Bool(false)),
        ("type"@, JsonView::Text("status"@)),
        ("vm"@, JsonView::Text(vm)),
        ],
    );
}

/// Asking for the role sends `authStatus`.
pub proof fn law_role_is_asked_for(
    reply: Result<Seq<u8>, WlErrorView>,
)
    requires
        is_greeted(reply),
    ensures
        asks_with(
            dispatch_next(greeting(SocketIntentView::AuthStatus), reply),
            SocketIntentView::AuthStatus,
            seq![
            ("type"@, JsonView::Text("authStatus"@)),
            ],
        ),
{
    lemma_greeted(reply);
    lemma_request(
        RequestView::AuthStatus,
        seq![
        ("type"@, JsonView::Text("authStatus"@)),
        ],
    );
}

/// Asking for the USB claims sends `usbipProbe`.
pub proof fn law_claims_are_asked_for(
    reply: Result<Seq<u8>, WlErrorView>,
)
    requires
        is_greeted(reply),
    ensures
        asks_with(
            dispatch_next(greeting(SocketIntentView::UsbProbe), reply),
            SocketIntentView::UsbProbe,
            seq![
            ("type"@, JsonView::Text("usbipProbe"@)),
            ],
        ),
{
    lemma_greeted(reply);
    lemma_request(
        RequestView::UsbProbe,
        seq![
        ("type"@, JsonView::Text("usbipProbe"@)),
        ],
    );
}

/// Muting or unmuting the microphone sends a `mute` of that channel.
pub proof fn law_microphone_mute_is_sent(
    vm: Seq<char>,
    mute: bool,
    reply: Result<Seq<u8>, WlErrorView>,
)
    requires
        is_greeted(reply),
    ensures
        asks_with(
            dispatch_next(greeting(SocketIntentView::AudioMute { vm, channel: AudioChannel::Microphone, mute }), reply),
            SocketIntentView::AudioMute { vm, channel: AudioChannel::Microphone, mute },
            seq![
            (
                "args"@,
                JsonView::Object(
                    seq![
                        ("channel"@, JsonView::Text("microphone"@)),
                        ("mute"@, JsonView::Bool(mute)),
                        ("vm"@, JsonView::Text(vm)),
                    ],
                ),
            ),
            ("op"@, JsonView::Text("mute"@)),
            ("type"@, JsonView::Text("audio"@)),
            ],
        ),
{
    lemma_greeted(reply);
    lemma_request(
        RequestView::AudioMute { vm, channel: AudioChannel::Microphone, mute },
        seq![
        (
            "args"@,
            JsonView::Object(
                seq![
                    ("channel"@, JsonView::Text("microphone"@)),
                    ("mute"@, JsonView::Bool(mute)),
                    ("vm"@, JsonView::Text(vm)),
                ],
            ),
        ),
        ("op"@, JsonView::Text("mute"@)),
        ("type"@, JsonView::Text("audio"@)),
        ],
    );
}

/// Setting the level of the microphone sends a `setVolume` of that channel.
pub proof fn law_microphone_level_is_sent(
    vm: Seq<char>,
    level_percent: u8,
    reply: Result<Seq<u8>, WlErrorView>,
)
    requires
        is_greeted(reply),
        level_percent <= 100,
    ensures
        asks_with(
            dispatch_next(greeting(SocketIntentView::AudioSetVolume { vm, channel: AudioChannel::Microphone, level_percent }), reply),
            SocketIntentView::AudioSetVolume { vm, channel: AudioChannel::Microphone, level_percent },
            seq![
            (
                "args"@,
                JsonView::Object(
                    seq![
                        ("channel"@, JsonView::Text("microphone"@)),
                        ("level"@, JsonView::Unsigned(level_percent as u64)),
                        ("vm"@, JsonView::Text(vm)),
                    ],
                ),
            ),
            ("op"@, JsonView::Text("setVolume"@)),
            ("type"@, JsonView::Text("audio"@)),
            ],
        ),
{
    lemma_greeted(reply);
    lemma_request(
        RequestView::AudioSetVolume { vm, channel: AudioChannel::Microphone, level: level_percent },
        seq![
        (
            "args"@,
            JsonView::Object(
                seq![
                    ("channel"@, JsonView::Text("microphone"@)),
                    ("level"@, JsonView::Unsigned(level_percent as u64)),
                    ("vm"@, JsonView::Text(vm)),
                ],
            ),
        ),
        ("op"@, JsonView::Text("setVolume"@)),
        ("type"@, JsonView::Text("audio"@)),
        ],
    );
}

/// Muting or unmuting the speaker sends a `mute` of that channel.
pub proof fn law_speaker_mute_is_sent(
    vm: Seq<char>,
    mute: bool,
    reply: Result<Seq<u8>, WlErrorView>,
)
    requires
        is_greeted(reply),
    ensures
        asks_with(
            dispatch_next(greeting(SocketIntentView::AudioMute { vm, channel: AudioChannel::Speaker, mute }), reply),
            SocketIntentView::AudioMute { vm, channel: AudioChannel::Speaker, mute },
            seq![
            (
                "args"@,
                JsonView::Object(
                    seq![
                        ("channel"@, JsonView::Text("speaker"@)),
                        ("mute"@, JsonView::Bool(mute)),
                        ("vm"@, JsonView::Text(vm)),
                    ],
                ),
            ),
            ("op"@, JsonView::Text("mute"@)),
            ("type"@, JsonView::Text("audio"@)),
            ],
        ),
{
    lemma_greeted(reply);
    lemma_request(
        RequestView::AudioMute { vm, channel: AudioChannel::Speaker, mute },
        seq![
        (
            "args"@,
            JsonView::Object(
                seq![
                    ("channel"@, JsonView::Text("speaker"@)),
                    ("mute"@, JsonView::Bool(mute)),
                    ("vm"@, JsonView::Text(vm)),
                ],
            ),
        ),
        ("op"@, JsonView::Text("mute"@)),
        ("type"@, JsonView::Text("audio"@)),
        ],
    );
}

/// Setting the level of the speaker sends a `setVolume` of that channel.
pub proof fn law_speaker_level_is_sent(
    vm: Seq<char>,
    level_percent: u8,
    reply: Result<Seq<u8>, WlErrorView>,
)
    requires
        is_greeted(reply),
        level_percent <= 100,
    ensures
        asks_with(
            dispatch_next(greeting(SocketIntentView::AudioSetVolume { vm, channel: AudioChannel::Speaker, level_percent }), reply),
            SocketIntentView::AudioSetVolume { vm, channel: AudioChannel::Speaker, level_percent },
            seq![
            (
                "args"@,
                JsonView::Object(
                    seq![
                        ("channel"@, JsonView::Text("speaker"@)),
                        ("level"@, JsonView::Unsigned(level_percent as u64)),
                        ("vm"@, JsonView::Text(vm)),
                    ],
                ),
            ),
            ("op"@, JsonView::Text("setVolume"@)),
            ("type"@, JsonView::Text("audio"@)),
            ],
        ),
{
    lemma_greeted(reply);
    lemma_request(
        RequestView::AudioSetVolume { vm, channel: AudioChannel::Speaker, level: level_percent },
        seq![
        (
            "args"@,
            JsonView::Object(
                seq![
                    ("channel"@, JsonView::Text("speaker"@)),
                    ("level"@, JsonView::Unsigned(level_percent as u64)),
                    ("vm"@, JsonView::Text(vm)),
                ],
            ),
        ),
        ("op"@, JsonView::Text("setVolume"@)),
        ("type"@, JsonView::Text("audio"@)),
        ],
    );
}

/// Disabling audio begins with muting the microphone.
pub proof fn law_audio_off_begins_with_the_microphone(
    vm: Seq<char>,
    reply: Result<Seq<u8>, WlErrorView>,
)
    requires
        is_greeted(reply),
    ensures
        asks_with(
            dispatch_next(greeting(SocketIntentView::AudioOff { vm }), reply),
            SocketIntentView::AudioOff { vm },
            seq![
            (
                "args"@,
                JsonView::Object(
                    seq![
                        ("channel"@, JsonView::Text("microphone"@)),
                        ("mute"@, JsonView::Bool(true)),
                        ("vm"@, JsonView::Text(vm)),
                    ],
                ),
            ),
            ("op"@, JsonView::Text("mute"@)),
            ("type"@, JsonView::Text("audio"@)),
            ],
        ),
{
    lemma_greeted(reply);
    lemma_request(
        RequestView::AudioMute { vm, channel: AudioChannel::Microphone, mute: true },
        seq![
        (
            "args"@,
            JsonView::Object(
                seq![
                    ("channel"@, JsonView::Text("microphone"@)),
                    ("mute"@, JsonView::Bool(true)),
                    ("vm"@, JsonView::Text(vm)),
                ],
            ),
        ),
        ("op"@, JsonView::Text("mute"@)),
        ("type"@, JsonView::Text("audio"@)),
        ],
    );
}

/// The members of the hello message.
pub open spec fn hello_members() -> Seq<(Seq<char>, JsonView)> {
    seq![
        ("type"@, JsonView::Text("hello"@)),
        ("clientVersion"@, JsonView::Text(">=0.4.0, <0.5.0"@)),
        (
            "supportedFeatures"@,
            JsonView::Array(
                seq![
                    JsonView::Text("typed-errors"@),
                    JsonView::Text("export-broker-audit"@),
                ],
            ),
        ),
    ]
}

/// On a public socket every session begins with the hello message, which tells the
/// versions and the features of the client.
pub proof fn law_sessions_begin_with_hello(client: NixlingClientView, intent: SocketIntentView)
    requires
        crate::config::public_socket_path(client.socket_path),
    ensures
        dispatch_start(client, intent) is Send,
        payload_has(dispatch_start(client, intent)->payload, hello_members()),
        dispatch_start(client, intent)->session == greeting(intent),
        refresh_start(client) is Send,
        payload_has(refresh_start(client)->payload, hello_members()),
        refresh_start(client)->stage is Hello,
        model_start(client) is Send,
        payload_has(model_start(client)->payload, hello_members()),
        model_start(client)->stage is AuthHello,
{
    lemma_request(RequestView::Hello, hello_members());
}

/// Whether a dispatch is over with a summary.
pub open spec fn succeeds(step: DispatchStepView, summary: Seq<char>) -> bool {
    step is Done && step->result == Ok::<DispatchOutcomeView, WlErrorView>(
        DispatchOutcomeView { summary },
    )
}

/// Whether a dispatch is over with an error.
pub open spec fn gives_up(step: DispatchStepView, error: WlErrorView) -> bool {
    step is Done && step->result == Err::<DispatchOutcomeView, WlErrorView>(error)
}

/// A change ends as the daemon's outcome says.
pub proof fn law_changes_end_with_their_outcome(
    vm: Seq<char>,
    bus_id: Seq<char>,
    force: bool,
    reply: Result<Seq<u8>, WlErrorView>,
    document: JsonView,
    intent: SocketIntentView,
)
    requires
        answers_with(reply, document),
        intent == (SocketIntentView::VmStart { vm }) || intent == (SocketIntentView::VmStop {
            vm,
            force,
        }) || intent == (SocketIntentView::VmRestart { vm }) || intent == (
        SocketIntentView::Switch { vm }) || intent == (SocketIntentView::Boot { vm }) || intent == (
        SocketIntentView::UsbAttach { vm, bus_id }) || intent == (SocketIntentView::UsbDetach {
            vm,
            bus_id,
        }),
    ensures
        mutation_answer(document) is Ok ==> succeeds(
            dispatch_next(waiting(intent), reply),
            mutation_answer(document)->Ok_0,
        ),
        mutation_answer(document) is Err ==> gives_up(
            dispatch_next(waiting(intent), reply),
            mutation_answer(document)->Err_0,
        ),
{
    lemma_answers(reply, document);
}

/// A question ends with a summary of what was answered.
pub proof fn law_questions_end_with_a_summary(
    vm: Seq<char>,
    reply: Result<Seq<u8>, WlErrorView>,
    document: JsonView,
)
    requires
        answers_with(reply, document),
    ensures
        inventory_answer(document) is Ok ==> succeeds(
            dispatch_next(waiting(SocketIntentView::List), reply),
            "listed "@ + decimal(inventory_answer(document)->Ok_0.vms.len()) + " VM(s)"@,
        ),
        status_answer(document, vm) is Ok ==> succeeds(
            dispatch_next(waiting(SocketIntentView::Status { vm }), reply),
            status_answer(document, vm)->Ok_0.name + " status: "@ + (match status_answer(
                document,
                vm,
            )->Ok_0.state {
                RuntimeState::Running => "Running"@,
                RuntimeState::Starting => "Starting"@,
                RuntimeState::Stopping => "Stopping"@,
                RuntimeState::Stopped => "Stopped"@,
                RuntimeState::Unknown => "Unknown"@,
            }),
        ),
        auth_answer(document) is Ok ==> succeeds(
            dispatch_next(waiting(SocketIntentView::AuthStatus), reply),
            "auth role: "@ + (match auth_answer(document)->Ok_0.role {
                AuthRole::NoRole => "None"@,
                AuthRole::Launcher => "Launcher"@,
                AuthRole::Admin => "Admin"@,
            }),
        ),
        probe_answer(document) is Ok ==> succeeds(
            dispatch_next(waiting(SocketIntentView::UsbProbe), reply),
            "probed "@ + decimal(probe_answer(document)->Ok_0.claims.len()) + " USB claim(s)"@,
        ),
        store_answer(document) is Ok ==> succeeds(
            dispatch_next(waiting(SocketIntentView::StoreVerify { vm }), reply),
            store_answer(document)->Ok_0,
        ),
        inventory_answer(document) is Err ==> gives_up(
            dispatch_next(waiting(SocketIntentView::List), reply),
            inventory_answer(document)->Err_0,
        ),
        status_answer(document, vm) is Err ==> gives_up(
            dispatch_next(waiting(SocketIntentView::Status { vm }), reply),
            status_answer(document, vm)->Err_0,
        ),
        auth_answer(document) is Err ==> gives_up(
            dispatch_next(waiting(SocketIntentView::AuthStatus), reply),
            auth_answer(document)->Err_0,
        ),
        probe_answer(document) is Err ==> gives_up(
            dispatch_next(waiting(SocketIntentView::UsbProbe), reply),
            probe_answer(document)->Err_0,
        ),
        store_answer(document) is Err ==> gives_up(
            dispatch_next(waiting(SocketIntentView::StoreVerify { vm }), reply),
            store_answer(document)->Err_0,
        ),
{
    lemma_answers(reply, document);
}

/// An audio operation ends with a summary that names its channel and what was set.
pub proof fn law_audio_operations_end_with_a_summary(
    vm: Seq<char>,
    channel: AudioChannel,
    mute: bool,
    level_percent: u8,
    reply: Result<Seq<u8>, WlErrorView>,
    document: JsonView,
)
    requires
        answers_with(reply, document),
    ensures
        ({
            let word = match channel {
                AudioChannel::Microphone => "microphone"@,
                AudioChannel::Speaker => "speaker"@,
            };
            let muted = dispatch_next(
                waiting(SocketIntentView::AudioMute { vm, channel, mute }),
                reply,
            );
            let set = dispatch_next(
                waiting(SocketIntentView::AudioSetVolume { vm, channel, level_percent }),
                reply,
            );
            &&& audio_op_answer(document) is Ok ==> succeeds(
                muted,
                "audio "@ + vm + " "@ + word + (if mute {
                    ": muted"@
                } else {
                    ": unmuted"@
                }),
            )
            &&& audio_op_answer(document) is Ok ==> succeeds(
                set,
                "audio "@ + vm + " "@ + word + (" level: "@ + decimal(level_percent as nat)
                    + "%"@),
            )
            &&& audio_op_answer(document) is Err ==> gives_up(
                muted,
                audio_op_answer(document)->Err_0,
            ) && gives_up(set, audio_op_answer(document)->Err_0)
        }),
{
    lemma_answers(reply, document);
}

/// Whatever fails while a request is answered ends the dispatch with that failure: the
/// transport, bytes that are no document, and an error of the daemon.
pub proof fn law_failed_answers_end_a_dispatch(
    intent: SocketIntentView,
    reply: Result<Seq<u8>, WlErrorView>,
)
    requires
        !(intent is AudioOff),
    ensures
        reply is Err ==> gives_up(dispatch_next(waiting(intent), reply), reply->Err_0),
        reply is Err ==> gives_up(dispatch_next(greeting(intent), reply), reply->Err_0),
        reply is Ok && parsed(reply->Ok_0) is Err ==> gives_up(
            dispatch_next(waiting(intent), reply),
            WlErrorView::Protocol(parsed(reply->Ok_0)->Err_0),
        ),
        reply is Ok && parsed(reply->Ok_0) is Ok && reported_error(
            parsed(reply->Ok_0)->Ok_0,
        ) is Some ==> gives_up(
            dispatch_next(waiting(intent), reply),
            reported_error(parsed(reply->Ok_0)->Ok_0)->Some_0,
        ),
        reply is Ok && parsed(reply->Ok_0) is Ok && hello_verdict(
            parsed(reply->Ok_0)->Ok_0,
        ) is Some ==> gives_up(
            dispatch_next(greeting(intent), reply),
            hello_verdict(parsed(reply->Ok_0)->Ok_0)->Some_0,
        ),
{
}

/// A volume over one hundred percent is never sent.
pub proof fn law_loud_volumes_are_refused(
    vm: Seq<char>,
    channel: AudioChannel,
    level_percent: u8,
    reply: Result<Seq<u8>, WlErrorView>,
)
    requires
        is_greeted(reply),
        level_percent > 100,
    ensures
        gives_up(
            dispatch_next(
                greeting(SocketIntentView::AudioSetVolume { vm, channel, level_percent }),
                reply,
            ),
            WlErrorView::Config("audio level must be between 0 and 100"@),
        ),
{
    lemma_greeted(reply);
}

/// Disabling audio goes on from the microphone to the speaker, and what the microphone
/// came to is not forgotten.
pub proof fn law_audio_off_mutes_both(
    vm: Seq<char>,
    reply: Result<Seq<u8>, WlErrorView>,
    document: JsonView,
    microphone: Option<WlErrorView>,
)
    requires
        answers_with(reply, document),
        audio_op_answer(document) is Ok,
    ensures
        ({
            let step = dispatch_next(waiting(SocketIntentView::AudioOff { vm }), reply);
            &&& step is Send
            &&& step->session == (DispatchSessionView {
                intent: SocketIntentView::AudioOff { vm },
                stage: DispatchStageView::Speaker { microphone: None },
            })
            &&& payload_has(
                step->payload,
                seq![
                    (
                        "args"@,
                        JsonView::Object(
                            seq![
                                ("channel"@, JsonView::Text("speaker"@)),
                                ("mute"@, JsonView::Bool(true)),
                                ("vm"@, JsonView::Text(vm)),
                            ],
                        ),
                    ),
                    ("op"@, JsonView::Text("mute"@)),
                    ("type"@, JsonView::Text("audio"@)),
                ],
            )
        }),
        ({
            let step = dispatch_next(
                DispatchSessionView {
                    intent: SocketIntentView::AudioOff { vm },
                    stage: DispatchStageView::Speaker { microphone },
                },
                reply,
            );
            &&& microphone is None ==> succeeds(step, "audio "@ + vm + " disabled"@)
            &&& microphone is Some ==> gives_up(step, microphone->Some_0)
        }),
{
    lemma_answers(reply, document);
    lemma_request(
        RequestView::AudioMute { vm, channel: AudioChannel::Speaker, mute: true },
        seq![
            (
                "args"@,
                JsonView::Object(
                    seq![
                        ("channel"@, JsonView::Text("speaker"@)),
                        ("mute"@, JsonView::Bool(true)),
                        ("vm"@, JsonView::Text(vm)),
                    ],
                ),
            ),
            ("op"@, JsonView::Text("mute"@)),
            ("type"@, JsonView::Text("audio"@)),
        ],
    );
}

/// Whether an error says that a connection is of no further use: the protocol, the
/// time, the daemon or the system failed, and not the operation.
pub open spec fn breaks_off(error: WlErrorView) -> bool {
    match error {
        WlErrorView::Protocol(_) => true,
        WlErrorView::Timeout(_) => true,
        WlErrorView::DaemonDown(_) => true,
        WlErrorView::Io(_) => true,
        WlErrorView::Config(_) => false,
        WlErrorView::Denied(_) => false,
        WlErrorView::Nixling(_) => false,
        WlErrorView::D2b(_) => false,
    }
}

/// Where muting the microphone fails, disabling audio ends there if the connection is
/// of no further use, and otherwise goes on to the speaker and then fails all the same;
/// a connection that breaks while the speaker is muted is told first.
pub proof fn law_audio_off_failures(
    vm: Seq<char>,
    error: WlErrorView,
    microphone: Option<WlErrorView>,
)
    ensures
        ({
            let step = dispatch_next(waiting(SocketIntentView::AudioOff { vm }), Err(error));
            &&& breaks_off(error) ==> gives_up(step, error)
            &&& !breaks_off(error) ==> step is Send && step->session == (DispatchSessionView {
                intent: SocketIntentView::AudioOff { vm },
                stage: DispatchStageView::Speaker { microphone: Some(error) },
            })
        }),
        ({
            let step = dispatch_next(
                DispatchSessionView {
                    intent: SocketIntentView::AudioOff { vm },
                    stage: DispatchStageView::Speaker { microphone },
                },
                Err(error),
            );
            &&& breaks_off(error) || microphone is None ==> gives_up(step, error)
            &&& !breaks_off(error) && microphone is Some ==> gives_up(step, microphone->Some_0)
        }),
{
}

/// Whether a step of a refresh sends a document of exactly these members.
pub open spec fn fetches(
    step: RefreshStepView,
    stage: RefreshStageView,
    members: Seq<(Seq<char>, JsonView)>,
) -> bool {
    step is Send && step->stage == stage && payload_has(step->payload, members)
}

/// A refresh asks for the authorization first, and then for the listing.
pub proof fn law_refresh_asks_for_role_and_listing(
    reply: Result<Seq<u8>, WlErrorView>,
    document: JsonView,
)
    ensures
        is_greeted(reply) ==> fetches(
            refresh_next(RefreshStageView::Hello, reply),
            RefreshStageView::Auth,
            seq![("type"@, JsonView::Text("authStatus"@))],
        ),
        answers_with(reply, document) && auth_answer(document) is Ok ==> fetches(
            refresh_next(RefreshStageView::Auth, reply),
            RefreshStageView::List { auth: auth_answer(document)->Ok_0 },
            seq![
                ("env"@, JsonView::Null),
                ("type"@, JsonView::Text("list"@)),
                ("vm"@, JsonView::Null),
            ],
        ),
{
    lemma_greeted(reply);
    if answers_with(reply, document) {
        lemma_answers(reply, document);
    }
    lemma_request(
        RequestView::AuthStatus,
        seq![("type"@, JsonView::Text("authStatus"@))],
    );
    lemma_request(
        RequestView::List,
        seq![
            ("env"@, JsonView::Null),
            ("type"@, JsonView::Text("list"@)),
            ("vm"@, JsonView::Null),
        ],
    );
}

/// Whether a refresh goes on to the statuses of the VMs of these names, or, where none
/// is left, to the USB claims.
pub open spec fn goes_on(
    step: RefreshStepView,
    auth: Auth,
    inventory: InventoryView,
    statuses: Seq<VmStatusView>,
    names: Seq<Seq<char>>,
) -> bool {
    &&& names.len() > 0 ==> fetches(
        step,
        RefreshStageView::Status {
            auth,
            inventory,
            statuses,
            vm: names[0],
            rest: names.drop_first(),
        },
        seq![
            ("checkBridges"@, JsonView::Bool(false)),
            ("type"@, JsonView::Text("status"@)),
            ("vm"@, JsonView::Text(names[0])),
        ],
    )
    &&& names.len() == 0 ==> fetches(
        step,
        RefreshStageView::Usb { auth, inventory, statuses },
        seq![("type"@, JsonView::Text("usbipProbe"@))],
    )
}

proof fn lemma_goes_on(
    auth: Auth,
    inventory: InventoryView,
    statuses: Seq<VmStatusView>,
    names: Seq<Seq<char>>,
)
    ensures
        goes_on(
            crate::client::ask_statuses(auth, inventory, statuses, names),
            auth,
            inventory,
            statuses,
            names,
        ),
{
    if names.len() > 0 {
        lemma_request(
            RequestView::Status { vm: names[0] },
            seq![
                ("checkBridges"@, JsonView::Bool(false)),
                ("type"@, JsonView::Text("status"@)),
                ("vm"@, JsonView::Text(names[0])),
            ],
        );
    } else {
        lemma_request(RequestView::UsbProbe, seq![("type"@, JsonView::Text("usbipProbe"@))]);
    }
}

/// A refresh asks for the status of every listed VM, one after the other in the listed
/// order, and keeps those that it gets; then it asks for the USB claims.
pub proof fn law_refresh_asks_for_every_status(
    auth: Auth,
    inventory: InventoryView,
    statuses: Seq<VmStatusView>,
    vm: Seq<char>,
    rest: Seq<Seq<char>>,
    reply: Result<Seq<u8>, WlErrorView>,
    document: JsonView,
)
    ensures
        answers_with(reply, document) && inventory_answer(document) is Ok ==> goes_on(
            refresh_next(RefreshStageView::List { auth }, reply),
            auth,
            inventory_answer(document)->Ok_0,
            Seq::empty(),
            Seq::new(
                inventory_answer(document)->Ok_0.vms.len(),
                |i: int| inventory_answer(document)->Ok_0.vms[i].name,
            ),
        ),
        answers_with(reply, document) && status_answer(document, vm) is Ok ==> goes_on(
            refresh_next(
                RefreshStageView::Status { auth, inventory, statuses, vm, rest },
                reply,
            ),
            auth,
            inventory,
            statuses.push(status_answer(document, vm)->Ok_0),
            rest,
        ),
        reply is Err || (answers_with(reply, document) && status_answer(document, vm) is Err)
            ==> goes_on(
            refresh_next(
                RefreshStageView::Status { auth, inventory, statuses, vm, rest },
                reply,
            ),
            auth,
            inventory,
            statuses,
            rest,
        ),
{
    if answers_with(reply, document) {
        lemma_answers(reply, document);
        if inventory_answer(document) is Ok {
            let listed = inventory_answer(document)->Ok_0;
            let names = Seq::new(listed.vms.len(), |i: int| listed.vms[i].name);
            assert(names =~= crate::client::vm_names(listed.vms));
            lemma_goes_on(auth, listed, Seq::empty(), names);
        }
        if status_answer(document, vm) is Ok {
            lemma_goes_on(
                auth,
                inventory,
                statuses.push(status_answer(document, vm)->Ok_0),
                rest,
            );
        }
    }
    lemma_goes_on(auth, inventory, statuses, rest);
}

/// The bundle that a refresh ends with.
pub open spec fn bundle(
    auth: Auth,
    inventory: InventoryView,
    statuses: Seq<VmStatusView>,
    usb: Option<UsbProbeView>,
    audio: Option<AudioStatusView>,
) -> Result<ReduceInputView, WlErrorView> {
    Ok(
        ReduceInputView {
            connectivity: Connectivity::Connected,
            auth: Some(auth),
            inventory: Some(inventory),
            statuses,
            usb,
            audio,
        },
    )
}

/// A refresh asks for the audio status exactly where a listed VM has audio, and ends
/// with all that it has learned; USB claims or an audio status that it does not get are
/// left out.
pub proof fn law_refresh_ends_with_what_it_learned(
    auth: Auth,
    inventory: InventoryView,
    statuses: Seq<VmStatusView>,
    usb: Option<UsbProbeView>,
    reply: Result<Seq<u8>, WlErrorView>,
    document: JsonView,
)
    requires
        reply is Err || answers_with(reply, document),
    ensures
        ({
            let probed = if reply is Ok && probe_answer(document) is Ok {
                Some(probe_answer(document)->Ok_0)
            } else {
                None
            };
            let heard = if reply is Ok && audio_status_answer(document) is Ok {
                Some(audio_status_answer(document)->Ok_0)
            } else {
                None
            };
            let audible = exists|i: int|
                0 <= i < inventory.vms.len() && (#[trigger] inventory.vms[i]).features.audio;
            let step = refresh_next(RefreshStageView::Usb { auth, inventory, statuses }, reply);
            let last = refresh_next(
                RefreshStageView::Audio { auth, inventory, statuses, usb },
                reply,
            );
            &&& audible ==> fetches(
                step,
                RefreshStageView::Audio { auth, inventory, statuses, usb: probed },
                seq![
                    (
                        "args"@,
                        JsonView::Object(seq![("vms"@, JsonView::Array(Seq::empty()))]),
                    ),
                    ("op"@, JsonView::Text("status"@)),
                    ("type"@, JsonView::Text("audio"@)),
                ],
            )
            &&& !audible ==> step is Done && step->result == bundle(
                auth,
                inventory,
                statuses,
                probed,
                None,
            )
            &&& last is Done
            &&& last->result == bundle(auth, inventory, statuses, usb, heard)
        }),
{
    if answers_with(reply, document) {
        lemma_answers(reply, document);
    }
    lemma_request(
        RequestView::AudioStatus,
        seq![
            ("args"@, JsonView::Object(seq![("vms"@, JsonView::Array(Seq::empty()))])),
            ("op"@, JsonView::Text("status"@)),
            ("type"@, JsonView::Text("audio"@)),
        ],
    );
}

/// A refresh that does not get the authorization or the listing fails with what went
/// wrong.
pub proof fn law_refresh_needs_role_and_listing(
    auth: Auth,
    reply: Result<Seq<u8>, WlErrorView>,
    document: JsonView,
)
    ensures
        reply is Err ==> {
            let failed = Err::<ReduceInputView, WlErrorView>(reply->Err_0);
            &&& refresh_next(RefreshStageView::Hello, reply) == RefreshStepView::Done {
                result: failed,
            }
            &&& refresh_next(RefreshStageView::Auth, reply) == RefreshStepView::Done {
                result: failed,
            }
            &&& refresh_next(RefreshStageView::List { auth }, reply) == RefreshStepView::Done {
                result: failed,
            }
        },
        answers_with(reply, document) && auth_answer(document) is Err ==> refresh_next(
            RefreshStageView::Auth,
            reply,
        ) == (RefreshStepView::Done { result: Err(auth_answer(document)->Err_0) }),
        answers_with(reply, document) && inventory_answer(document) is Err ==> refresh_next(
            RefreshStageView::List { auth },
            reply,
        ) == (RefreshStepView::Done { result: Err(inventory_answer(document)->Err_0) }),
{
    if answers_with(reply, document) {
        lemma_answers(reply, document);
    }
}

/// A failed refresh is to the reducer a daemon that is down, or, after a refusal, one
/// that gives no role; a successful one is what it brought.
pub proof fn law_outcomes_reach_the_reducer(input: ReduceInputView, error: WlErrorView)
    ensures
        refresh_input(Ok(input)) == input,
        ({
            let given = refresh_input(Err(error));
            &&& given.inventory is None && given.statuses.len() == 0 && given.usb is None
                && given.audio is None
            &&& error is Denied ==> given.connectivity == Connectivity::Connected && given.auth
                == Some(Auth { role: AuthRole::NoRole })
            &&& !(error is Denied) ==> given.connectivity == Connectivity::DaemonDown
                && given.auth is None
        }),
{
}

/// A refresh is settled by an answer and by a refusal; any other failure is that of a
/// daemon which was lost where a connection stood, and is out of reach where none did.
pub proof fn law_refresh_endings(input: ReduceInputView, error: WlErrorView, connected: bool)
    ensures
        end_of(Ok(input), connected) == RefreshEnd::Settled,
        error is Denied ==> end_of(Err(error), connected) == RefreshEnd::Settled,
        !(error is Denied) ==> end_of(Err(error), true) == RefreshEnd::Lost && end_of(
            Err(error),
            false,
        ) == RefreshEnd::Unreachable,
{
}

/// Whether a step sends a document of exactly these members on a connection.
pub open spec fn models(
    step: ModelStepView,
    stage: ModelStageView,
    members: Seq<(Seq<char>, JsonView)>,
    reconnect: bool,
) -> bool {
    step is Send && step->stage == stage && payload_has(step->payload, members)
        && step->reconnect == reconnect
}

/// Whether a refresh is over with an outcome.
pub open spec fn modelled_as(
    step: ModelStepView,
    result: Result<ReduceInputView, WlErrorView>,
) -> bool {
    step is Done && step->result == result
}

/// The refresh of a daemon that answers for all VMs at once asks for the authorization,
/// for all statuses, and for the audio status where a listed VM has audio, each on a
/// connection of its own; it ends with all that it has learned.
pub proof fn law_model_refresh_asks_in_turn(
    auth: Auth,
    model: StatusModelView,
    reply: Result<Seq<u8>, WlErrorView>,
    document: JsonView,
)
    ensures
        is_greeted(reply) ==> {
            &&& models(
                model_next(ModelStageView::AuthHello, reply),
                ModelStageView::Auth,
                seq![("type"@, JsonView::Text("authStatus"@))],
                false,
            )
            &&& models(
                model_next(ModelStageView::StatusHello { auth }, reply),
                ModelStageView::Status { auth },
                seq![
                    ("checkBridges"@, JsonView::Bool(false)),
                    ("type"@, JsonView::Text("status"@)),
                    ("vm"@, JsonView::Null),
                ],
                false,
            )
            &&& models(
                model_next(ModelStageView::AudioHello { auth, model }, reply),
                ModelStageView::Audio { auth, model },
                seq![
                    (
                        "args"@,
                        JsonView::Object(seq![("vms"@, JsonView::Array(Seq::empty()))]),
                    ),
                    ("op"@, JsonView::Text("status"@)),
                    ("type"@, JsonView::Text("audio"@)),
                ],
                false,
            )
        },
        answers_with(reply, document) && auth_answer(document) is Ok ==> models(
            model_next(ModelStageView::Auth, reply),
            ModelStageView::StatusHello { auth: auth_answer(document)->Ok_0 },
            hello_members(),
            true,
        ),
        answers_with(reply, document) && model_answer(document) is Ok ==> {
            let told = model_answer(document)->Ok_0;
            let audible = exists|i: int|
                0 <= i < told.inventory.vms.len() && (
                #[trigger] told.inventory.vms[i]).features.audio;
            let step = model_next(ModelStageView::Status { auth }, reply);
            &&& audible ==> models(
                step,
                ModelStageView::AudioHello { auth, model: told },
                hello_members(),
                true,
            )
            &&& !audible ==> modelled_as(
                step,
                bundle(auth, told.inventory, told.statuses, Some(told.usb), None),
            )
        },
{
    lemma_greeted(reply);
    if answers_with(reply, document) {
        lemma_answers(reply, document);
    }
    lemma_request(RequestView::Hello, hello_members());
    lemma_request(RequestView::AuthStatus, seq![("type"@, JsonView::Text("authStatus"@))]);
    lemma_request(
        RequestView::StatusModel,
        seq![
            ("checkBridges"@, JsonView::Bool(false)),
            ("type"@, JsonView::Text("status"@)),
            ("vm"@, JsonView::Null),
        ],
    );
    lemma_request(
        RequestView::AudioStatus,
        seq![
            ("args"@, JsonView::Object(seq![("vms"@, JsonView::Array(Seq::empty()))])),
            ("op"@, JsonView::Text("status"@)),
            ("type"@, JsonView::Text("audio"@)),
        ],
    );
}

/// That refresh ends with the audio status where it gets one, and without it where it
/// does not.
pub proof fn law_model_refresh_ends_with_what_it_learned(
    auth: Auth,
    model: StatusModelView,
    reply: Result<Seq<u8>, WlErrorView>,
    document: JsonView,
)
    ensures
        answers_with(reply, document) && audio_status_answer(document) is Ok ==> modelled_as(
            model_next(ModelStageView::Audio { auth, model }, reply),
            bundle(
                auth,
                model.inventory,
                model.statuses,
                Some(model.usb),
                Some(audio_status_answer(document)->Ok_0),
            ),
        ),
        reply is Err || (answers_with(reply, document) && audio_status_answer(document) is Err)
            ==> modelled_as(
            model_next(ModelStageView::Audio { auth, model }, reply),
            bundle(auth, model.inventory, model.statuses, Some(model.usb), None),
        ),
        !is_greeted(reply) ==> modelled_as(
            model_next(ModelStageView::AudioHello { auth, model }, reply),
            bundle(auth, model.inventory, model.statuses, Some(model.usb), None),
        ),
{
    lemma_greeted(reply);
    if answers_with(reply, document) {
        lemma_answers(reply, document);
    }
}

/// Failures of the daemon are told as those of d2b, with the same text; all other
/// failures, and all that succeeds, stay as they are.
pub proof fn law_d2b_failures_are_named(
    step: DispatchStepView,
    text: Seq<char>,
    stage: ModelStageView,
    reply: Result<Seq<u8>, WlErrorView>,
)
    ensures
        gives_up(step, WlErrorView::Nixling(text)) ==> gives_up(
            d2b_step(step),
            WlErrorView::D2b(text),
        ),
        !(step is Done && step->result is Err && step->result->Err_0 is Nixling) ==> d2b_step(step)
            == step,
        (stage is Auth || stage is Status || stage is AuthHello || stage is StatusHello)
            && reply is Err ==> modelled_as(
            model_next(stage, reply),
            Err(
                match reply->Err_0 {
                    WlErrorView::Nixling(said) => WlErrorView::D2b(said),
                    other => other,
                },
            ),
        ),
{
}

} // verus!
