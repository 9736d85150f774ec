//! The requests that the client sends over the public socket.

use vstd::prelude::*;

use crate::error::{WlError, WlResult};
use crate::json::{Json, JsonView, member, object, text_value, to_json_text, writable, written};
use crate::model::AudioChannel;
use crate::text::lemma_first_where_none;

verus! {

/// The protocol versions this client speaks.
pub const CLIENT_VERSION_RANGE: &'static str = ">=0.4.0, <0.5.0";

/// How the protocol names an audio channel.
pub open spec fn channel_name(channel: AudioChannel) -> Seq<char> {
    match channel {
        AudioChannel::Microphone => "microphone"@,
        AudioChannel::Speaker => "speaker"@,
    }
}

/// How the protocol names an audio channel.
pub fn channel_text(channel: AudioChannel) -> (name: &'static str)
    ensures
        name@ == channel_name(channel),
{
    match channel {
        AudioChannel::Microphone => "microphone",
        AudioChannel::Speaker => "speaker",
    }
}

/// A request to the daemon.
pub enum Request {
    Hello,
    AuthStatus,
    List,
    Status { vm: String },
    /// The statuses of all VMs at once.
    StatusModel,
    UsbProbe,
    VmStart { vm: String },
    VmStop { vm: String, force: bool },
    VmRestart { vm: String },
    Switch { vm: String },
    Boot { vm: String },
    UsbBind { vm: String, bus_id: String },
    UsbUnbind { vm: String, bus_id: String },
    StoreVerify { vm: String },
    AudioStatus,
    AudioMute { vm: String, channel: AudioChannel, mute: bool },
    AudioSetVolume { vm: String, channel: AudioChannel, level: u8 },
}

/// The mathematical form of [`Request`].
#[verifier::ext_equal]
pub enum RequestView {
    Hello,
    AuthStatus,
    List,
    Status { vm: Seq<char> },
    StatusModel,
    UsbProbe,
    VmStart { vm: Seq<char> },
    VmStop { vm: Seq<char>, force: bool },
    VmRestart { vm: Seq<char> },
    Switch { vm: Seq<char> },
    Boot { vm: Seq<char> },
    UsbBind { vm: Seq<char>, bus_id: Seq<char> },
    UsbUnbind { vm: Seq<char>, bus_id: Seq<char> },
    StoreVerify { vm: Seq<char> },
    AudioStatus,
    AudioMute { vm: Seq<char>, channel: AudioChannel, mute: bool },
    AudioSetVolume { vm: Seq<char>, channel: AudioChannel, level: u8 },
}

impl View for Request {
    type V = RequestView;

    open spec fn view(&self) -> RequestView {
        match self {
            Request::Hello => RequestView::Hello,
            Request::AuthStatus => RequestView::AuthStatus,
            Request::List => RequestView::List,
            Request::Status { vm } => RequestView::Status { vm: vm@ },
            Request::StatusModel => RequestView::StatusModel,
            Request::UsbProbe => RequestView::UsbProbe,
            Request::VmStart { vm } => RequestView::VmStart { vm: vm@ },
            Request::VmStop { vm, force } => RequestView::VmStop { vm: vm@, force: *force },
            Request::VmRestart { vm } => RequestView::VmRestart { vm: vm@ },
            Request::Switch { vm } => RequestView::Switch { vm: vm@ },
            Request::Boot { vm } => RequestView::Boot { vm: vm@ },
            Request::UsbBind { vm, bus_id } => RequestView::UsbBind { vm: vm@, bus_id: bus_id@ },
            Request::UsbUnbind { vm, bus_id } => RequestView::UsbUnbind {
                vm: vm@,
                bus_id: bus_id@,
            },
            Request::StoreVerify { vm } => RequestView::StoreVerify { vm: vm@ },
            Request::AudioStatus => RequestView::AudioStatus,
            Request::AudioMute { vm, channel, mute } => RequestView::AudioMute {
                vm: vm@,
                channel: *channel,
                mute: *mute,
            },
            Request::AudioSetVolume { vm, channel, level } => RequestView::AudioSetVolume {
                vm: vm@,
                channel: *channel,
                level: *level,
            },
        }
    }
}

/// The document of a mutating request on a VM: it always asks to apply, never
/// for a dry run.
pub open spec fn mutation(verb: Seq<char>, vm: Seq<char>) -> JsonView {
    JsonView::Object(
        seq![
            member("apply"@, JsonView::Bool(true)),
            member("dryRun"@, JsonView::Bool(false)),
            member("json"@, JsonView::Bool(true)),
            member("type"@, JsonView::Text(verb)),
            member("vm"@, JsonView::Text(vm)),
        ],
    )
}

/// The same, not waiting for the guest to become ready.
pub open spec fn unattended_mutation(verb: Seq<char>, vm: Seq<char>) -> JsonView {
    JsonView::Object(
        seq![
            member("apply"@, JsonView::Bool(true)),
            member("dryRun"@, JsonView::Bool(false)),
            member("json"@, JsonView::Bool(true)),
            member("noWaitApi"@, JsonView::Bool(true)),
            member("type"@, JsonView::Text(verb)),
            member("vm"@, JsonView::Text(vm)),
        ],
    )
}

/// The document that stops a VM without waiting for the guest.
pub open spec fn forced_stop(vm: Seq<char>) -> JsonView {
    JsonView::Object(
        seq![
            member("apply"@, JsonView::Bool(true)),
            member("dryRun"@, JsonView::Bool(false)),
            member("force"@, JsonView::Bool(true)),
            member("json"@, JsonView::Bool(true)),
            member("type"@, JsonView::Text("vmStop"@)),
            member("vm"@, JsonView::Text(vm)),
        ],
    )
}

/// The document that binds or unbinds a USB device.
pub open spec fn usb_mutation(verb: Seq<char>, vm: Seq<char>, bus_id: Seq<char>) -> JsonView {
    JsonView::Object(
        seq![
            member("apply"@, JsonView::Bool(true)),
            member("busId"@, JsonView::Text(bus_id)),
            member("dryRun"@, JsonView::Bool(false)),
            member("json"@, JsonView::Bool(true)),
            member("type"@, JsonView::Text(verb)),
            member("vm"@, JsonView::Text(vm)),
        ],
    )
}

/// The document of an audio operation.
pub open spec fn audio_operation(op: Seq<char>, args: Seq<(Seq<char>, JsonView)>) -> JsonView {
    JsonView::Object(
        seq![
            member("args"@, JsonView::Object(args)),
            member("op"@, JsonView::Text(op)),
            member("type"@, JsonView::Text("audio"@)),
        ],
    )
}

/// The document of a request.
pub open spec fn request_document(request: RequestView) -> JsonView {
    match request {
        RequestView::Hello => JsonView::Object(
            seq![
                member("type"@, JsonView::Text("hello"@)),
                member("clientVersion"@, JsonView::Text(CLIENT_VERSION_RANGE@)),
                member(
                    "supportedFeatures"@,
                    JsonView::Array(
                        seq![
                            JsonView::Text("typed-errors"@),
                            JsonView::Text("export-broker-audit"@),
                        ],
                    ),
                ),
            ],
        ),
        RequestView::AuthStatus => JsonView::Object(
            seq![member("type"@, JsonView::Text("authStatus"@))],
        ),
        RequestView::List => JsonView::Object(
            seq![
                member("env"@, JsonView::Null),
                member("type"@, JsonView::Text("list"@)),
                member("vm"@, JsonView::Null),
            ],
        ),
        RequestView::Status { vm } => JsonView::Object(
            seq![
                member("checkBridges"@, JsonView::Bool(false)),
                member("type"@, JsonView::Text("status"@)),
                member("vm"@, JsonView::Text(vm)),
            ],
        ),
        RequestView::StatusModel => JsonView::Object(
            seq![
                member("checkBridges"@, JsonView::Bool(false)),
                member("type"@, JsonView::Text("status"@)),
                member("vm"@, JsonView::Null),
            ],
        ),
        RequestView::UsbProbe => JsonView::Object(
            seq![member("type"@, JsonView::Text("usbipProbe"@))],
        ),
        RequestView::VmStart { vm } => unattended_mutation("vmStart"@, vm),
        RequestView::VmStop { vm, force } => if force {
            forced_stop(vm)
        } else {
            mutation("vmStop"@, vm)
        },
        RequestView::VmRestart { vm } => unattended_mutation("vmRestart"@, vm),
        RequestView::Switch { vm } => mutation("switch"@, vm),
        RequestView::Boot { vm } => mutation("boot"@, vm),
        RequestView::UsbBind { vm, bus_id } => usb_mutation("usbipBind"@, vm, bus_id),
        RequestView::UsbUnbind { vm, bus_id } => usb_mutation("usbipUnbind"@, vm, bus_id),
        RequestView::StoreVerify { vm } => JsonView::Object(
            seq![
                member("repair"@, JsonView::Bool(false)),
                member("type"@, JsonView::Text("storeVerify"@)),
                member("vm"@, JsonView::Text(vm)),
            ],
        ),
        RequestView::AudioStatus => audio_operation(
            "status"@,
            seq![member("vms"@, JsonView::Array(Seq::empty()))],
        ),
        RequestView::AudioMute { vm, channel, mute } => audio_operation(
            "mute"@,
            seq![
                member("channel"@, JsonView::Text(channel_name(channel))),
                member("mute"@, JsonView::Bool(mute)),
                member("vm"@, JsonView::Text(vm)),
            ],
        ),
        RequestView::AudioSetVolume { vm, channel, level } => audio_operation(
            "setVolume"@,
            seq![
                member("channel"@, JsonView::Text(channel_name(channel))),
                member("level"@, JsonView::Unsigned(level as u64)),
                member("vm"@, JsonView::Text(vm)),
            ],
        ),
    }
}

/// The bytes of a request.
pub open spec fn request_bytes(request: RequestView) -> Seq<u8> {
    vstd::utf8::encode_utf8(written(request_document(request)))
}

/// Members whose names start with different letters have different names.
proof fn lemma_initials_differ(entries: Seq<(Seq<char>, JsonView)>)
    requires
        forall|i: int| 0 <= i < entries.len() ==> (#[trigger] entries[i]).0.len() > 0,
        forall|i: int, j: int|
            0 <= i < j < entries.len() ==> (#[trigger] entries[i]).0[0] != (
            #[trigger] entries[j]).0[0],
    ensures
        crate::json::distinct_names(entries),
{
}

/// Every request can be written.
pub(crate) proof fn lemma_request_writable(request: RequestView)
    ensures
        writable(request_document(request)),
{
    reveal_strlit("apply");
    reveal_strlit("dryRun");
    reveal_strlit("json");
    reveal_strlit("type");
    reveal_strlit("vm");
    reveal_strlit("noWaitApi");
    reveal_strlit("force");
    reveal_strlit("busId");
    reveal_strlit("args");
    reveal_strlit("op");
    reveal_strlit("channel");
    reveal_strlit("mute");
    reveal_strlit("level");
    reveal_strlit("clientVersion");
    reveal_strlit("supportedFeatures");
    reveal_strlit("env");
    reveal_strlit("checkBridges");
    reveal_strlit("repair");
    reveal_strlit("vms");
    reveal_with_fuel(writable, 4);
    let document = request_document(request);
    let entries = document->Object_0;
    match request {
        RequestView::Hello => {
            lemma_initials_differ(entries);
            assert(writable(entries[2].1));
        },
        RequestView::AudioStatus => {
            assert(writable(entries[0].1->Object_0[0].1));
            lemma_initials_differ(entries[0].1->Object_0);
            assert(writable(entries[0].1));
            lemma_initials_differ(entries);
        },
        RequestView::AudioMute { .. } => {
            lemma_initials_differ(entries[0].1->Object_0);
            assert(writable(entries[0].1));
            lemma_initials_differ(entries);
        },
        RequestView::AudioSetVolume { .. } => {
            lemma_initials_differ(entries[0].1->Object_0);
            assert(writable(entries[0].1));
            lemma_initials_differ(entries);
        },
        _ => {
            lemma_initials_differ(entries);
        },
    }
}

fn mutation_json(verb: &str, vm: &String) -> (json: Json)
    ensures
        json@ == mutation(verb@, vm@),
{
    let json = object(
        vec![
            ("apply", Json::Bool(true)),
            ("dryRun", Json::Bool(false)),
            ("json", Json::Bool(true)),
            ("type", text_value(verb)),
            ("vm", Json::Text(vm.clone())),
        ],
    );
    assert(json@->Object_0 =~= mutation(verb@, vm@)->Object_0);
    json
}

fn unattended_mutation_json(verb: &str, vm: &String) -> (json: Json)
    ensures
        json@ == unattended_mutation(verb@, vm@),
{
    let json = object(
        vec![
            ("apply", Json::Bool(true)),
            ("dryRun", Json::Bool(false)),
            ("json", Json::Bool(true)),
            ("noWaitApi", Json::Bool(true)),
            ("type", text_value(verb)),
            ("vm", Json::Text(vm.clone())),
        ],
    );
    assert(json@->Object_0 =~= unattended_mutation(verb@, vm@)->Object_0);
    json
}

fn forced_stop_json(vm: &String) -> (json: Json)
    ensures
        json@ == forced_stop(vm@),
{
    let json = object(
        vec![
            ("apply", Json::Bool(true)),
            ("dryRun", Json::Bool(false)),
            ("force", Json::Bool(true)),
            ("json", Json::Bool(true)),
            ("type", text_value("vmStop")),
            ("vm", Json::Text(vm.clone())),
        ],
    );
    assert(json@->Object_0 =~= forced_stop(vm@)->Object_0);
    json
}

fn usb_mutation_json(verb: &str, vm: &String, bus_id: &String) -> (json: Json)
    ensures
        json@ == usb_mutation(verb@, vm@, bus_id@),
{
    let json = object(
        vec![
            ("apply", Json::Bool(true)),
            ("busId", Json::Text(bus_id.clone())),
            ("dryRun", Json::Bool(false)),
            ("json", Json::Bool(true)),
            ("type", text_value(verb)),
            ("vm", Json::Text(vm.clone())),
        ],
    );
    assert(json@->Object_0 =~= usb_mutation(verb@, vm@, bus_id@)->Object_0);
    json
}

fn audio_json(op: &str, args: Json) -> (json: Json)
    requires
        args@ is Object,
    ensures
        json@ == audio_operation(op@, args@->Object_0),
{
    let ghost inner = args@->Object_0;
    let json = object(
        vec![("args", args), ("op", text_value(op)), ("type", text_value("audio"))],
    );
    assert(json@->Object_0 =~= audio_operation(op@, inner)->Object_0);
    json
}

fn hello_json() -> (json: Json)
    ensures
        json@ == request_document(RequestView::Hello),
{
    let features = Json::Array(
        vec![text_value("typed-errors"), text_value("export-broker-audit")],
    );
    assert(features@->Array_0 =~= request_document(RequestView::Hello)->Object_0[2].1->Array_0);
    let json = object(
        vec![
            ("type", text_value("hello")),
            ("clientVersion", text_value(CLIENT_VERSION_RANGE)),
            ("supportedFeatures", features),
        ],
    );
    assert(json@->Object_0 =~= request_document(RequestView::Hello)->Object_0);
    json
}

/// The document of a request.
pub fn request_json(request: &Request) -> (json: Json)
    ensures
        json@ == request_document(request@),
        writable(json@),
{
    proof {
        lemma_request_writable(request@);
    }
    let json = match request {
        Request::Hello => hello_json(),
        Request::AuthStatus => object(vec![("type", text_value("authStatus"))]),
        Request::List => object(
            vec![("env", Json::Null), ("type", text_value("list")), ("vm", Json::Null)],
        ),
        Request::Status { vm } => object(
            vec![
                ("checkBridges", Json::Bool(false)),
                ("type", text_value("status")),
                ("vm", Json::Text(vm.clone())),
            ],
        ),
        Request::StatusModel => object(
            vec![
                ("checkBridges", Json::Bool(false)),
                ("type", text_value("status")),
                ("vm", Json::Null),
            ],
        ),
        Request::UsbProbe => object(vec![("type", text_value("usbipProbe"))]),
        Request::VmStart { vm } => unattended_mutation_json("vmStart", vm),
        Request::VmStop { vm, force } => if *force {
            forced_stop_json(vm)
        } else {
            mutation_json("vmStop", vm)
        },
        Request::VmRestart { vm } => unattended_mutation_json("vmRestart", vm),
        Request::Switch { vm } => mutation_json("switch", vm),
        Request::Boot { vm } => mutation_json("boot", vm),
        Request::UsbBind { vm, bus_id } => usb_mutation_json("usbipBind", vm, bus_id),
        Request::UsbUnbind { vm, bus_id } => usb_mutation_json("usbipUnbind", vm, bus_id),
        Request::StoreVerify { vm } => object(
            vec![
                ("repair", Json::Bool(false)),
                ("type", text_value("storeVerify")),
                ("vm", Json::Text(vm.clone())),
            ],
        ),
        Request::AudioStatus => {
            let vms = Json::Array(Vec::new());
            assert(vms@->Array_0 =~= Seq::<JsonView>::empty());
            audio_json("status", object(vec![("vms", vms)]))
        },
        Request::AudioMute { vm, channel, mute } => audio_json(
            "mute",
            object(
                vec![
                    ("channel", text_value(channel_text(*channel))),
                    ("mute", Json::Bool(*mute)),
                    ("vm", Json::Text(vm.clone())),
                ],
            ),
        ),
        Request::AudioSetVolume { vm, channel, level } => audio_json(
            "setVolume",
            object(
                vec![
                    ("channel", text_value(channel_text(*channel))),
                    ("level", Json::Unsigned(*level as u64)),
                    ("vm", Json::Text(vm.clone())),
                ],
            ),
        ),
    };
    proof {
        let wanted = request_document(request@)->Object_0;
        if request is AudioStatus || request is AudioMute || request is AudioSetVolume {
            assert(json@->Object_0[0].1->Object_0 =~= wanted[0].1->Object_0);
        }
        assert(json@->Object_0 =~= wanted);
    }
    json
}

/// The bytes of a request, ready to be framed.
pub fn request_payload(request: &Request) -> (payload: WlResult<Vec<u8>>)
    ensures
        payload is Ok,
        payload->Ok_0@ == request_bytes(request@),
{
    match to_json_text(request_json(request)) {
        Ok(text) => Ok(text.as_str().as_bytes_vec()),
        Err(complaint) => Err(WlError::Protocol(complaint)),
    }
}

/// The VM a mutating request changes.
pub open spec fn mutated_vm(request: RequestView) -> Option<Seq<char>> {
    match request {
        RequestView::VmStart { vm } => Some(vm),
        RequestView::VmStop { vm, force } => Some(vm),
        RequestView::VmRestart { vm } => Some(vm),
        RequestView::Switch { vm } => Some(vm),
        RequestView::Boot { vm } => Some(vm),
        RequestView::UsbBind { vm, bus_id } => Some(vm),
        RequestView::UsbUnbind { vm, bus_id } => Some(vm),
        _ => None,
    }
}

/// Every mutating request names its VM and asks to apply the change, never for a
/// dry run.
pub proof fn law_mutations_are_applied(request: RequestView)
    requires
        mutated_vm(request) is Some,
    ensures
        request_document(request).field("apply"@) == Some(JsonView::Bool(true)),
        request_document(request).field("dryRun"@) == Some(JsonView::Bool(false)),
        request_document(request).field("vm"@) == Some(
            JsonView::Text(mutated_vm(request)->Some_0),
        ),
{
    lemma_request_writable(request);
    let entries = request_document(request)->Object_0;
    let devices = request is UsbBind || request is UsbUnbind;
    crate::json::lemma_member_is_found(entries, 0);
    crate::json::lemma_member_is_found(
        entries,
        if devices {
            2
        } else {
            1
        },
    );
    crate::json::lemma_member_is_found(entries, entries.len() - 1);
}

/// Only a forced stop carries the `force` flag.
pub proof fn law_force_is_explicit(vm: Seq<char>, force: bool)
    ensures
        request_document(RequestView::VmStop { vm, force }).field("force"@) == (if force {
            Some(JsonView::Bool(true))
        } else {
            None
        }),
{
    let request = RequestView::VmStop { vm, force };
    lemma_request_writable(request);
    let entries = request_document(request)->Object_0;
    if force {
        crate::json::lemma_member_is_found(entries, 2);
    } else {
        reveal_strlit("force");
        reveal_strlit("apply");
        reveal_strlit("dryRun");
        reveal_strlit("json");
        reveal_strlit("type");
        reveal_strlit("vm");
        let wanted = crate::json::has_name("force"@);
        assert forall|i: int| 0 <= i < entries.len() implies !wanted(#[trigger] entries[i]) by {
            assert(entries[i].0[0] != "force"@[0]);
        }
        lemma_first_where_none(entries, wanted);
    }
}

} // verus!
