use serde_json::Value;
use wlcontrol::client::{BROKER_SOCKET_MESSAGE, DispatchOutcome};
use wlcontrol::d2b::{D2bClient, D2bStep, ModelStep};
use wlcontrol::model::{AudioChannel, AuthRole, Connectivity, RuntimeState, SocketIntent};
use wlcontrol::sources::ReduceInput;
use wlcontrol::transport::{
    PollReport, ReceiveOutcome, after_poll, after_receive, missing_socket,
};
use wlcontrol::{Config, WlError, WlResult, wire};

const HELLO_OK: &str = r#"{
    "type": "helloOk",
    "serverVersion": "0.4.0",
    "selectedVersion": "0.4.0",
    "capabilities": ["typed-errors", "export-broker-audit"]
}"#;

const HELLO_REJECTED: &str = r#"{
    "type": "helloRejected",
    "reason": "versionMismatch",
    "error": {
        "kind": "wire-version-mismatch",
        "exitCode": 20,
        "message": "client/server versions do not overlap",
        "remediation": "upgrade"
    }
}"#;

const AUTH: &str = r#"{
    "type": "authStatusResponse",
    "allowedSubcommands": ["list", "status", "usb probe"],
    "deniedSubcommands": [],
    "role": "admin",
    "sockets": []
}"#;

fn status_response(audio: bool) -> String {
    r#"{
        "type": "statusResponse",
        "vms": [{
            "bridgeChecks": [],
            "env": "work",
            "lifecycle": {
                "pendingRestart": true,
                "state": "Running"
            },
            "runtime": {
                "detail": "running",
                "operationCapabilities": {
                    "lifecycle": { "switch": false },
                    "media": { "usbHotplug": true },
                    "guest": { "exec": false },
                    "storage": { "storeSync": false }
                }
            },
            "sshUser": "alice",
            "staticIp": "10.1.0.10",
            "features": { "audio": AUDIO },
            "vm": "corp-vm",
            "usb": {
                "entries": [{
                    "vm": "corp-vm",
                    "env": "work",
                    "busId": "1-2",
                    "lockPath": "/run/d2b/usbip/corp-vm-1-2.lock",
                    "status": "bound",
                    "ownerVm": "corp-vm"
                }]
            }
        }]
    }"#
    .replace("AUDIO", if audio { "true" } else { "false" })
}

const AUDIO_MUTED: &str = r#"{
    "type": "audioOpResponse",
    "op": "mute",
    "result": {
        "vm": "corp-vm",
        "channel": "microphone",
        "applied": "host-and-guest",
        "state": { "level": 50, "muted": true }
    }
}"#;

const NOT_JSON: &str = "{not json";

/// A daemon that answers each request with the next message of a script.
struct Script {
    messages: Vec<WlResult<Vec<u8>>>,
    /// The requests of each connection.
    connections: Vec<Vec<Value>>,
}

impl Script {
    fn new(answers: &[&str]) -> Self {
        let messages = answers
            .iter()
            .map(|answer| {
                let frame = wire::encode_frame(answer.as_bytes()).expect("frame");
                after_receive(ReceiveOutcome::Received(frame))
            })
            .collect();
        Self {
            messages,
            connections: Vec::new(),
        }
    }

    fn and_then_fail(mut self, error: WlError) -> Self {
        self.messages.push(Err(error));
        self
    }

    fn and_then_receive(mut self, message: &[u8]) -> Self {
        let outcome = ReceiveOutcome::Received(message.to_vec());
        self.messages.push(after_receive(outcome));
        self
    }

    fn exchange(&mut self, payload: &[u8]) -> WlResult<Vec<u8>> {
        let frame = wire::encode_frame(payload).expect("request frame");
        let seen = wire::decode_frame(&frame).expect("request payload");
        let request: Value = serde_json::from_slice(seen).expect("request document");
        let connection = self.connections.last_mut().expect("open connection");
        connection.push(request);
        if self.messages.is_empty() {
            panic!("unexpected request {:?}", connection.last());
        }
        self.messages.remove(0)
    }

    fn dispatch(&mut self, intent: &SocketIntent) -> WlResult<DispatchOutcome> {
        let mut step = client().dispatch(intent);
        self.connections.push(Vec::new());
        loop {
            match step {
                D2bStep::Send { session, payload } => {
                    let reply = self.exchange(&payload);
                    step = session.reply(reply);
                }
                D2bStep::Done { result } => {
                    assert!(self.messages.is_empty(), "the daemon has more to say");
                    return result;
                }
            }
        }
    }

    fn refresh(&mut self) -> ReduceInput {
        let client = client();
        let mut step = client.try_refresh();
        loop {
            match step {
                ModelStep::Send {
                    stage,
                    payload,
                    reconnect,
                } => {
                    if reconnect {
                        self.connections.push(Vec::new());
                    }
                    let reply = self.exchange(&payload);
                    step = stage.reply(reply);
                }
                ModelStep::Done { result } => {
                    assert!(self.messages.is_empty(), "the daemon has more to say");
                    return client.refresh(result);
                }
            }
        }
    }

    fn assert_connection(&self, number: usize, expected: &[&str]) {
        let requests = &self.connections[number];
        assert_eq!(requests.len(), expected.len(), "{requests:?}");
        for (request, text) in requests.iter().zip(expected) {
            let wanted: Value = serde_json::from_str(text).expect("expected request");
            assert_eq!(request, &wanted);
        }
    }

    fn assert_requests(&self, expected: &[&str]) {
        assert_eq!(self.connections.len(), 1);
        self.assert_connection(0, expected);
    }
}

const HELLO: &str = r#"{ "type": "hello", "clientVersion": ">=0.4.0, <0.5.0", "supportedFeatures": ["typed-errors", "export-broker-audit"] }"#;

fn client() -> D2bClient {
    D2bClient::new(&Config {
        public_socket: "/run/d2b/public.sock".to_owned(),
        command_timeout_ms: 1000,
        ..Default::default()
    })
}

fn vm_start() -> SocketIntent {
    SocketIntent::VmStart {
        vm: "corp-vm".to_owned(),
    }
}

fn audio_off() -> SocketIntent {
    SocketIntent::AudioOff {
        vm: "corp-vm".to_owned(),
    }
}

fn mutating(outcome: &str, summary: &str, remediation: &str) -> String {
    let mut text = format!(
        r#"{{"type": "mutatingVerbResponse", "verb": "vm start", "outcome": "{outcome}", "summary": "{summary}""#
    );
    if !remediation.is_empty() {
        text.push_str(&format!(r#", "remediation": "{remediation}""#));
    }
    text.push('}');
    text
}

fn failure(kind: &str, message: &str, remediation: &str) -> String {
    format!(
        r#"{{"type": "error", "error": {{"kind": "{kind}", "exitCode": 1, "message": "{message}", "remediation": "{remediation}"}}}}"#
    )
}

fn assert_degraded_refresh(input: &ReduceInput) {
    assert_eq!(input.connectivity, Connectivity::DaemonDown);
    assert!(input.auth.is_none());
    assert!(input.inventory.is_none());
    assert!(input.statuses.is_empty());
    assert!(input.usb.is_none());
    assert!(input.audio.is_none());
}

#[test]
fn refresh_populates_reduce_input_from_public_socket() {
    let status = status_response(false);
    let mut daemon = Script::new(&[HELLO_OK, AUTH, HELLO_OK, &status]);

    let input = daemon.refresh();

    assert_eq!(input.connectivity, Connectivity::Connected);
    assert_eq!(input.auth.expect("auth").role, AuthRole::Admin);
    let inventory = input.inventory.expect("inventory");
    assert_eq!(inventory.vms.len(), 1);
    assert_eq!(inventory.vms[0].name, "corp-vm");
    assert_eq!(inventory.vms[0].env.as_deref(), Some("work"));
    assert!(!inventory.vms[0].features.graphics);
    assert!(!inventory.vms[0].features.tpm);
    assert!(!inventory.vms[0].features.usbip);
    assert!(!inventory.vms[0].features.audio);
    assert_eq!(inventory.vms[0].static_ip.as_deref(), Some("10.1.0.10"));
    assert!(inventory.vms[0].capabilities.usb_hotplug);
    assert!(!inventory.vms[0].capabilities.terminal);
    assert_eq!(input.statuses.len(), 1);
    assert_eq!(input.statuses[0].state, RuntimeState::Running);
    assert!(input.statuses[0].pending_restart);
    assert!(!input.statuses[0].capabilities.store_verify);
    let usb = input.usb.expect("usb");
    assert_eq!(usb.claims.len(), 1);
    assert!(usb.claims[0].bound);
    assert_eq!(usb.claims[0].owner_vm.as_deref(), Some("corp-vm"));

    assert_eq!(daemon.connections.len(), 2);
    daemon.assert_connection(0, &[HELLO, r#"{ "type": "authStatus" }"#]);
    daemon.assert_connection(
        1,
        &[
            HELLO,
            r#"{ "type": "status", "checkBridges": false, "vm": null }"#,
        ],
    );
}

#[test]
fn refresh_populates_audio_from_public_socket() {
    let audio = r#"{
        "type": "audioOpResponse",
        "op": "status",
        "result": {
            "entries": [{
                "vm": "corp-vm",
                "speaker": { "level": 80, "muted": false },
                "microphone": { "level": 50, "muted": true },
                "providerKind": "local-hypervisor",
                "enforcement": "host-and-guest"
            }],
            "errors": []
        }
    }"#;
    let status = status_response(true);
    let mut daemon = Script::new(&[HELLO_OK, AUTH, HELLO_OK, &status, HELLO_OK, audio]);

    let input = daemon.refresh();

    let audio = input.audio.expect("audio");
    assert_eq!(audio.entries.len(), 1);
    assert_eq!(audio.entries[0].vm, "corp-vm");
    assert_eq!(audio.entries[0].audio.speaker.level, Some(80));
    assert!(!audio.entries[0].audio.speaker.muted);
    assert_eq!(audio.entries[0].audio.microphone.level, Some(50));
    assert!(audio.entries[0].audio.microphone.muted);
    assert!(audio.errors.is_empty());
    assert_eq!(daemon.connections.len(), 3);
    daemon.assert_connection(
        2,
        &[
            HELLO,
            r#"{ "type": "audio", "op": "status", "args": { "vms": [] } }"#,
        ],
    );
}

#[test]
fn refresh_preserves_audio_status_errors() {
    let audio = r#"{
        "type": "audioOpResponse",
        "op": "status",
        "result": {
            "entries": [],
            "errors": [{
                "vm": "corp-vm",
                "kind": "provider-misconfigured",
                "remediation": "start guestd"
            }]
        }
    }"#;
    let status = status_response(true);
    let mut daemon = Script::new(&[HELLO_OK, AUTH, HELLO_OK, &status, HELLO_OK, audio]);

    let input = daemon.refresh();

    let audio = input.audio.expect("audio");
    assert!(audio.entries.is_empty());
    assert_eq!(audio.errors.len(), 1);
    assert_eq!(audio.errors[0].vm, "corp-vm");
    assert_eq!(audio.errors[0].kind, "provider-misconfigured");
    assert_eq!(audio.errors[0].remediation.as_deref(), Some("start guestd"));
}

#[test]
fn version_mismatch_rejection_is_protocol_error() {
    let mut daemon = Script::new(&[HELLO_REJECTED]);
    let error = daemon.dispatch(&SocketIntent::List).expect_err("rejects");
    assert!(
        matches!(error, WlError::Protocol(_)),
        "expected protocol error, got {error:?}"
    );
    daemon.assert_requests(&[HELLO]);
}

#[test]
fn absent_socket_reports_daemon_down() {
    let client = client();
    let input = client.refresh(Err(missing_socket(client.socket_path())));
    assert_eq!(input.connectivity, Connectivity::DaemonDown);
    assert_degraded_refresh(&input);
}

#[test]
fn broker_socket_guard_rejects_priv_sock_before_connect() {
    let client = D2bClient::new(&Config {
        public_socket: "/run/d2b/priv.sock".to_owned(),
        command_timeout_ms: 100,
        ..Default::default()
    });

    let error = match client.dispatch(&SocketIntent::List) {
        D2bStep::Done { result } => result.expect_err("guarded"),
        D2bStep::Send { .. } => panic!("nothing may be sent"),
    };

    assert!(
        matches!(error, WlError::Config(ref message) if message.contains("privileged d2b broker socket")),
        "expected config guard error, got {error:?}"
    );
    match client.try_refresh() {
        ModelStep::Done { result } => assert_eq!(
            result,
            Err(WlError::Config(BROKER_SOCKET_MESSAGE.to_owned()))
        ),
        ModelStep::Send { .. } => panic!("nothing may be sent"),
    }
}

#[test]
fn vm_start_dispatch_returns_applied_summary() {
    let answer = mutating("applied", "started corp-vm", "");
    let mut daemon = Script::new(&[HELLO_OK, &answer]);
    let outcome = daemon.dispatch(&vm_start()).expect("dispatch");
    assert_eq!(outcome.summary, "started corp-vm");
    daemon.assert_requests(&[
        HELLO,
        r#"{ "type": "vmStart", "vm": "corp-vm", "noWaitApi": true, "dryRun": false, "apply": true, "json": true }"#,
    ]);
}

#[test]
fn vm_restart_dispatch_uses_no_wait_api() {
    let answer = mutating("applied", "restarted corp-vm", "");
    let mut daemon = Script::new(&[HELLO_OK, &answer]);
    let outcome = daemon
        .dispatch(&SocketIntent::VmRestart {
            vm: "corp-vm".to_owned(),
        })
        .expect("dispatch");
    assert_eq!(outcome.summary, "restarted corp-vm");
    daemon.assert_requests(&[
        HELLO,
        r#"{ "type": "vmRestart", "vm": "corp-vm", "noWaitApi": true, "dryRun": false, "apply": true, "json": true }"#,
    ]);
}

#[test]
fn vm_stop_dispatch_omits_force_by_default() {
    let answer = mutating("applied", "stopped corp-vm", "");
    let mut daemon = Script::new(&[HELLO_OK, &answer]);
    let outcome = daemon
        .dispatch(&SocketIntent::VmStop {
            vm: "corp-vm".to_owned(),
            force: false,
        })
        .expect("dispatch");
    assert_eq!(outcome.summary, "stopped corp-vm");
    daemon.assert_requests(&[
        HELLO,
        r#"{ "type": "vmStop", "vm": "corp-vm", "dryRun": false, "apply": true, "json": true }"#,
    ]);
}

#[test]
fn force_vm_stop_dispatch_sends_force_true() {
    let answer = mutating("applied", "force stopped corp-vm", "");
    let mut daemon = Script::new(&[HELLO_OK, &answer]);
    let outcome = daemon
        .dispatch(&SocketIntent::VmStop {
            vm: "corp-vm".to_owned(),
            force: true,
        })
        .expect("dispatch");
    assert_eq!(outcome.summary, "force stopped corp-vm");
    daemon.assert_requests(&[
        HELLO,
        r#"{ "type": "vmStop", "vm": "corp-vm", "force": true, "dryRun": false, "apply": true, "json": true }"#,
    ]);
}

#[test]
fn boot_dispatch_returns_applied_summary() {
    let answer = mutating("applied", "staged corp-vm for next boot", "");
    let mut daemon = Script::new(&[HELLO_OK, &answer]);
    let outcome = daemon
        .dispatch(&SocketIntent::Boot {
            vm: "corp-vm".to_owned(),
        })
        .expect("dispatch");
    assert_eq!(outcome.summary, "staged corp-vm for next boot");
    daemon.assert_requests(&[
        HELLO,
        r#"{ "type": "boot", "vm": "corp-vm", "dryRun": false, "apply": true, "json": true }"#,
    ]);
}

#[test]
fn audio_mute_dispatch_sends_public_audio_op() {
    let mut daemon = Script::new(&[HELLO_OK, AUDIO_MUTED]);
    let outcome = daemon
        .dispatch(&SocketIntent::AudioMute {
            vm: "corp-vm".to_owned(),
            channel: AudioChannel::Microphone,
            mute: false,
        })
        .expect("dispatch");
    assert_eq!(outcome.summary, "audio corp-vm microphone: unmuted");
    daemon.assert_requests(&[
        HELLO,
        r#"{ "type": "audio", "op": "mute", "args": { "vm": "corp-vm", "channel": "microphone", "mute": false } }"#,
    ]);
}

#[test]
fn audio_volume_dispatch_sends_public_audio_op() {
    let answer = r#"{
        "type": "audioOpResponse",
        "op": "setVolume",
        "result": {
            "vm": "corp-vm",
            "channel": "speaker",
            "applied": "host-and-guest",
            "state": { "level": 42, "muted": false }
        }
    }"#;
    let mut daemon = Script::new(&[HELLO_OK, answer]);
    let outcome = daemon
        .dispatch(&SocketIntent::AudioSetVolume {
            vm: "corp-vm".to_owned(),
            channel: AudioChannel::Speaker,
            level_percent: 42,
        })
        .expect("dispatch");
    assert_eq!(outcome.summary, "audio corp-vm speaker level: 42%");
    daemon.assert_requests(&[
        HELLO,
        r#"{ "type": "audio", "op": "setVolume", "args": { "vm": "corp-vm", "channel": "speaker", "level": 42 } }"#,
    ]);
}

const MUTE_MICROPHONE: &str = r#"{ "type": "audio", "op": "mute", "args": { "vm": "corp-vm", "channel": "microphone", "mute": true } }"#;
const MUTE_SPEAKER: &str = r#"{ "type": "audio", "op": "mute", "args": { "vm": "corp-vm", "channel": "speaker", "mute": true } }"#;

#[test]
fn audio_off_dispatch_mutes_both_channels_and_reports_combined_summary() {
    let mut daemon = Script::new(&[HELLO_OK, AUDIO_MUTED, AUDIO_MUTED]);
    let outcome = daemon.dispatch(&audio_off()).expect("dispatch");
    assert_eq!(outcome.summary, "audio corp-vm disabled");
    daemon.assert_requests(&[HELLO, MUTE_MICROPHONE, MUTE_SPEAKER]);
}

#[test]
fn audio_off_attempts_speaker_even_when_microphone_fails() {
    let microphone = failure(
        "provider-misconfigured",
        "microphone path failed",
        "inspect guestd",
    );
    let mut daemon = Script::new(&[HELLO_OK, &microphone, AUDIO_MUTED]);
    let error = daemon.dispatch(&audio_off()).expect_err("audio off error");
    assert!(matches!(error, WlError::D2b(ref message) if message.contains("microphone")));
    daemon.assert_requests(&[HELLO, MUTE_MICROPHONE, MUTE_SPEAKER]);
}

#[test]
fn audio_off_does_not_retry_after_fatal_microphone_transport_failure() {
    let mut daemon = Script::new(&[HELLO_OK, NOT_JSON]);
    let error = daemon
        .dispatch(&audio_off())
        .expect_err("audio off protocol error");
    assert!(matches!(error, WlError::Protocol(_)));
    daemon.assert_requests(&[HELLO, MUTE_MICROPHONE]);
}

#[test]
fn audio_off_preserves_fatal_speaker_transport_failure() {
    let microphone = failure(
        "provider-misconfigured",
        "microphone path failed",
        "inspect guestd",
    );
    let mut daemon = Script::new(&[HELLO_OK, &microphone, NOT_JSON]);
    let error = daemon
        .dispatch(&audio_off())
        .expect_err("audio off speaker protocol error");
    assert!(matches!(error, WlError::Protocol(_)));
}

#[test]
fn audio_off_returns_speaker_domain_error_after_microphone_success() {
    let speaker = failure(
        "provider-misconfigured",
        "speaker path failed",
        "inspect daemon",
    );
    let mut daemon = Script::new(&[HELLO_OK, AUDIO_MUTED, &speaker]);
    let error = daemon
        .dispatch(&audio_off())
        .expect_err("audio off speaker error");
    assert!(
        matches!(error, WlError::D2b(ref message) if message.contains("speaker path failed"))
    );
}

#[test]
fn audio_dispatch_errors_map_to_typed_errors() {
    let answer = failure("provider-misconfigured", "guestd is missing", "start guestd");
    let mut daemon = Script::new(&[HELLO_OK, &answer]);
    let error = daemon
        .dispatch(&SocketIntent::AudioMute {
            vm: "corp-vm".to_owned(),
            channel: AudioChannel::Speaker,
            mute: true,
        })
        .expect_err("audio error");
    assert!(
        matches!(error, WlError::D2b(ref message) if message.contains("provider-misconfigured"))
    );
    daemon.assert_requests(&[HELLO, MUTE_SPEAKER]);
}

#[test]
fn audio_dispatch_maps_daemon_auth_denied() {
    let answer = failure("authz-not-admin", "requires admin role", "join d2b group");
    let error = Script::new(&[HELLO_OK, &answer])
        .dispatch(&SocketIntent::AudioSetVolume {
            vm: "corp-vm".to_owned(),
            channel: AudioChannel::Speaker,
            level_percent: 42,
        })
        .expect_err("audio auth denied");
    assert!(matches!(error, WlError::Denied(ref message) if message.contains("admin")));
}

#[test]
fn audio_set_volume_rejects_out_of_range_before_request() {
    let mut daemon = Script::new(&[HELLO_OK]);
    let error = daemon
        .dispatch(&SocketIntent::AudioSetVolume {
            vm: "corp-vm".to_owned(),
            channel: AudioChannel::Speaker,
            level_percent: 101,
        })
        .expect_err("audio level rejected");
    assert!(matches!(error, WlError::Config(ref message) if message.contains("between 0 and 100")));
    daemon.assert_requests(&[HELLO]);
}

#[test]
fn mutating_non_applied_outcomes_map_to_typed_errors() {
    let cases = [
        ("dry-run-planned", "planned only", "use --apply"),
        ("api-ready-timeout", "api not ready", "inspect guest"),
        ("not-yet-implemented", "not implemented", "upgrade d2b"),
        ("broker-error", "broker refused", "inspect daemon logs"),
        ("invalid-request", "bad vm", "choose a declared VM"),
    ];

    for (outcome, summary, remediation) in cases {
        let answer = mutating(outcome, summary, remediation);
        let error = Script::new(&[HELLO_OK, &answer])
            .dispatch(&vm_start())
            .expect_err("non-applied outcome must fail");

        match outcome {
            "api-ready-timeout" => assert!(matches!(error, WlError::Timeout(_)), "{error:?}"),
            "invalid-request" => assert!(matches!(error, WlError::Protocol(_)), "{error:?}"),
            _ => assert!(matches!(error, WlError::D2b(_)), "{error:?}"),
        }
        let rendered = error.to_text();
        for needle in [outcome, summary, remediation] {
            assert!(
                rendered.contains(needle),
                "{rendered:?} did not contain {needle:?}"
            );
        }
    }
}

#[test]
fn usb_probe_mutating_response_maps_to_wl_error() {
    let answer = mutating("broker-error", "broker refused", "inspect daemon logs");
    let mut daemon = Script::new(&[HELLO_OK, &answer]);
    let error = daemon
        .dispatch(&SocketIntent::UsbProbe)
        .expect_err("usb probe broker error");
    assert!(matches!(error, WlError::D2b(ref message) if message.contains("broker refused")));
    daemon.assert_requests(&[HELLO, r#"{ "type": "usbipProbe" }"#]);
}

fn stalled() -> WlError {
    let report = PollReport {
        ready: false,
        broken: false,
        hung_up: false,
        wanted: false,
    };
    after_poll(report, "receive", "100ms", "").expect_err("stalled")
}

#[test]
fn accept_then_stall_degrades_refresh_and_times_out_dispatch() {
    let input = Script::new(&[HELLO_OK]).and_then_fail(stalled()).refresh();
    assert_degraded_refresh(&input);

    let error = Script::new(&[HELLO_OK])
        .and_then_fail(stalled())
        .dispatch(&SocketIntent::List)
        .expect_err("timeout");
    assert!(
        matches!(error, WlError::Timeout(_)),
        "expected timeout, got {error:?}"
    );
}

#[test]
fn close_after_hello_degrades_refresh_and_reports_daemon_down() {
    let input = Script::new(&[HELLO_OK]).and_then_receive(b"").refresh();
    assert_degraded_refresh(&input);

    let error = Script::new(&[HELLO_OK])
        .and_then_receive(b"")
        .dispatch(&SocketIntent::List)
        .expect_err("closed");
    assert!(
        matches!(error, WlError::DaemonDown(_)),
        "expected daemon down, got {error:?}"
    );
}

#[test]
fn post_auth_request_failure_degrades_refresh_not_false_healthy() {
    let mut daemon = Script::new(&[HELLO_OK, AUTH, HELLO_OK]).and_then_receive(b"");
    assert_degraded_refresh(&daemon.refresh());
    assert_eq!(daemon.connections.len(), 2);
}

#[test]
fn invalid_json_degrades_refresh_and_is_protocol_error_on_dispatch() {
    let input = Script::new(&[HELLO_OK, NOT_JSON]).refresh();
    assert_degraded_refresh(&input);

    let error = Script::new(&[HELLO_OK, NOT_JSON])
        .dispatch(&SocketIntent::List)
        .expect_err("invalid json");
    assert!(
        matches!(error, WlError::Protocol(_)),
        "expected protocol error, got {error:?}"
    );
}

#[test]
fn malformed_frames_degrade_refresh_and_are_protocol_errors_on_dispatch() {
    let oversized = (wire::MAX_FRAME_BYTES as u32 + 1).to_le_bytes().to_vec();
    for message in [vec![10, 0, 0, 0, b'{', b'}'], oversized] {
        let input = Script::new(&[HELLO_OK]).and_then_receive(&message).refresh();
        assert_degraded_refresh(&input);

        let error = Script::new(&[HELLO_OK])
            .and_then_receive(&message)
            .dispatch(&SocketIntent::List)
            .expect_err("bad frame");
        assert!(
            matches!(error, WlError::Protocol(_)),
            "expected protocol error for {message:?}, got {error:?}"
        );
    }
}

#[test]
fn lost_audio_is_left_out() {
    let status = status_response(true);
    let input = Script::new(&[HELLO_OK, AUTH, HELLO_OK, &status])
        .and_then_fail(stalled())
        .refresh();
    assert_eq!(input.connectivity, Connectivity::Connected);
    assert_eq!(input.statuses.len(), 1);
    assert!(input.audio.is_none());

    let input = Script::new(&[HELLO_OK, AUTH, HELLO_OK, &status, HELLO_OK, NOT_JSON]).refresh();
    assert_eq!(input.inventory.expect("inventory").vms.len(), 1);
    assert!(input.audio.is_none());
}

#[test]
fn status_answers_without_entries_degrade() {
    let answer = r#"{ "type": "statusResponse", "status": { "lifecycle": {} } }"#;
    let input = Script::new(&[HELLO_OK, AUTH, HELLO_OK, answer]).refresh();
    assert_degraded_refresh(&input);
}

#[test]
fn status_answers_cover_several_vms() {
    let answer = r#"{
        "type": "statusResponse",
        "entries": [
            { "name": "a", "usb": { "entries": [{ "vm": "a", "env": "e", "busId": "1-1" }] } },
            { "env": "nameless" },
            { "vm": "b", "lifecycle": { "state": "Stopped" }, "usb": {} },
            { "name": "c", "usb": { "entries": [{ "vm": "c" }, { "vm": "c", "env": "e", "busId": "2-1", "bound": true }] } }
        ]
    }"#;
    let input = Script::new(&[HELLO_OK, AUTH, HELLO_OK, answer]).refresh();
    let inventory = input.inventory.expect("inventory");
    let declared: Vec<&str> = inventory.vms.iter().map(|vm| vm.name.as_str()).collect();
    assert_eq!(declared, ["a", "b", "c"]);
    let reported: Vec<&str> = input.statuses.iter().map(|vm| vm.name.as_str()).collect();
    assert_eq!(reported, declared);
    assert_eq!(input.statuses[1].state, RuntimeState::Stopped);
    let usb = input.usb.expect("usb");
    let buses: Vec<&str> = usb.claims.iter().map(|claim| claim.bus_id.as_str()).collect();
    assert_eq!(buses, ["1-1", "2-1"]);
}
