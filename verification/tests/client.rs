use serde_json::Value;
use wlcontrol::client::{
    BROKER_SOCKET_MESSAGE, DispatchOutcome, DispatchStep, NixlingClient, RefreshStep,
};
use wlcontrol::json::parse;
use wlcontrol::model::{AudioChannel, AuthRole, Connectivity, RuntimeState, SocketIntent};
use wlcontrol::reply::{
    audio_op_from_reply, audio_status_from_reply, auth_from_reply, inventory_from_reply,
    mutation_from_reply, parse_store_verify, selected_version_supported, status_from_reply,
    status_model_from_reply, usb_probe_from_reply,
};
use wlcontrol::sources::ReduceInput;
use wlcontrol::transport::{ReceiveOutcome, after_receive, missing_socket};
use wlcontrol::{Config, WlError, WlResult, wire};

const HELLO_OK: &str = r#"{
    "type": "helloOk",
    "serverVersion": "0.4.0",
    "selectedVersion": "0.4.0",
    "capabilities": ["typed-errors", "export-broker-audit"]
}"#;

const HELLO_REJECTED: &str = r#"{
    "type": "helloRejected",
    "reason": "versionMismatch",
    "error": {
        "kind": "wire-version-mismatch",
        "exitCode": 20,
        "message": "client/server versions do not overlap",
        "remediation": "upgrade"
    }
}"#;

const AUTH: &str = r#"{
    "type": "authStatusResponse",
    "auth": {
        "allowedSubcommands": ["list", "status"],
        "deniedSubcommands": [],
        "role": "admin",
        "sockets": []
    }
}"#;

const LIST: &str = r#"{
    "type": "listResponse",
    "vms": [{
        "name": "corp-vm",
        "env": "work",
        "graphics": true,
        "tpm": true,
        "usbip": true,
        "staticIp": "10.1.0.10",
        "status": "running",
        "isNetVm": false
    }]
}"#;

const AUDIO_LIST: &str = r#"{
    "type": "listResponse",
    "vms": [{
        "vm": "corp-vm",
        "env": "work",
        "features": { "audio": true },
        "status": "running"
    }]
}"#;

const STATUS: &str = r#"{
    "type": "statusResponse",
    "status": {
        "vm": "corp-vm",
        "lifecycle": { "pendingRestart": true, "state": "Running" },
        "runtime": { "detail": "running" },
        "readiness": ["guest-control-health"]
    }
}"#;

const USB: &str = r#"{
    "type": "usbipProbeResponse",
    "entries": [{
        "vm": "corp-vm",
        "env": "work",
        "busId": "1-2",
        "lockPath": "/run/nixling/usbip/corp-vm-1-2.lock",
        "status": "bound",
        "ownerVm": "corp-vm"
    }]
}"#;

const AUDIO_MUTED: &str = r#"{
    "type": "audioOpResponse",
    "op": "mute",
    "result": {
        "vm": "corp-vm",
        "channel": "microphone",
        "applied": "host-and-guest",
        "state": { "level": 50, "muted": true }
    }
}"#;

const NOT_JSON: &str = "{not json";

/// A daemon that answers each request with the next message of a script.
struct Script {
    messages: Vec<WlResult<Vec<u8>>>,
    requests: Vec<Value>,
}

impl Script {
    fn new(answers: &[&str]) -> Self {
        let messages = answers
            .iter()
            .map(|answer| {
                let frame = wire::encode_frame(answer.as_bytes()).expect("frame");
                after_receive(ReceiveOutcome::Received(frame))
            })
            .collect();
        Self {
            messages,
            requests: Vec::new(),
        }
    }

    fn and_then_receive(mut self, message: &[u8]) -> Self {
        let outcome = ReceiveOutcome::Received(message.to_vec());
        self.messages.push(after_receive(outcome));
        self
    }

    fn exchange(&mut self, payload: &[u8]) -> WlResult<Vec<u8>> {
        let frame = wire::encode_frame(payload).expect("request frame");
        let seen = wire::decode_frame(&frame).expect("request payload");
        let request: Value = serde_json::from_slice(seen).expect("request document");
        self.requests.push(request);
        if self.messages.is_empty() {
            panic!("unexpected request {:?}", self.requests.last());
        }
        self.messages.remove(0)
    }

    fn dispatch(&mut self, intent: &SocketIntent) -> WlResult<DispatchOutcome> {
        let mut step = client().dispatch(intent);
        loop {
            match step {
                DispatchStep::Send { session, payload } => {
                    let reply = self.exchange(&payload);
                    step = session.reply(reply);
                }
                DispatchStep::Done { result } => {
                    assert!(self.messages.is_empty(), "the daemon has more to say");
                    return result;
                }
            }
        }
    }

    fn refresh(&mut self) -> ReduceInput {
        let client = client();
        let mut step = client.try_refresh();
        loop {
            match step {
                RefreshStep::Send { stage, payload } => {
                    let reply = self.exchange(&payload);
                    step = stage.reply(reply);
                }
                RefreshStep::Done { result } => {
                    assert!(self.messages.is_empty(), "the daemon has more to say");
                    return client.refresh(result);
                }
            }
        }
    }

    fn assert_requests(&self, expected: &[&str]) {
        assert_eq!(self.requests.len(), expected.len(), "{:?}", self.requests);
        for (request, text) in self.requests.iter().zip(expected) {
            let wanted: Value = serde_json::from_str(text).expect("expected request");
            assert_eq!(request, &wanted);
        }
    }
}

const HELLO: &str = r#"{ "type": "hello", "clientVersion": ">=0.4.0, <0.5.0", "supportedFeatures": ["typed-errors", "export-broker-audit"] }"#;

fn client() -> NixlingClient {
    NixlingClient::new(&Config {
        public_socket: "/run/d2b/public.sock".to_owned(),
        command_timeout_ms: 1000,
        ..Default::default()
    })
}

fn vm_start() -> SocketIntent {
    SocketIntent::VmStart {
        vm: "corp-vm".to_owned(),
    }
}

fn mutating(outcome: &str, summary: &str, remediation: &str) -> String {
    let mut text = format!(
        r#"{{"type": "mutatingVerbResponse", "verb": "vm start", "outcome": "{outcome}", "summary": "{summary}""#
    );
    if !remediation.is_empty() {
        text.push_str(&format!(r#", "remediation": "{remediation}""#));
    }
    text.push('}');
    text
}

fn failure(kind: &str, message: &str, remediation: &str) -> String {
    format!(
        r#"{{"type": "error", "error": {{"kind": "{kind}", "exitCode": 1, "message": "{message}", "remediation": "{remediation}"}}}}"#
    )
}

fn assert_degraded_refresh(input: &ReduceInput) {
    assert_eq!(input.connectivity, Connectivity::DaemonDown);
    assert!(input.auth.is_none());
    assert!(input.inventory.is_none());
    assert!(input.statuses.is_empty());
    assert!(input.usb.is_none());
    assert!(input.audio.is_none());
}

#[test]
fn client_carries_config() {
    let config = Config {
        public_socket: "/run/nixling/test.sock".into(),
        command_timeout_ms: 1234,
        ..Default::default()
    };
    let client = NixlingClient::new(&config);
    assert_eq!(client.socket_path(), "/run/nixling/test.sock");
    assert_eq!(client.timeout(), 1234);
}

#[test]
fn refresh_reports_daemon_down_for_absent_socket() {
    let client = NixlingClient::new(&Config {
        public_socket: "/run/nixling-wlcontrol-absent-public.sock".to_owned(),
        ..Default::default()
    });
    let outcome = Err(missing_socket(client.socket_path()));
    assert_eq!(
        client.refresh(outcome).connectivity,
        Connectivity::DaemonDown
    );
}

#[test]
fn selected_version_range_matches_nixling_v04() {
    assert!(selected_version_supported("0.4.0"));
    assert!(selected_version_supported("0.4.9"));
    assert!(!selected_version_supported("0.5.0"));
}

#[test]
fn odd_versions_are_told_apart() {
    assert!(selected_version_supported("0.4"));
    assert!(selected_version_supported("0.4.x"));
    for version in ["", "0", "0.x", "1.4.0", "0.3.9", "v0.4.0"] {
        assert!(!selected_version_supported(version), "{version:?}");
    }
}

#[test]
fn public_socket_refresh_populates_reduce_input_from_public_socket() {
    let mut daemon = Script::new(&[HELLO_OK, AUTH, LIST, STATUS, USB]);

    let input = daemon.refresh();

    assert_eq!(input.connectivity, Connectivity::Connected);
    assert_eq!(input.auth.expect("auth").role, AuthRole::Admin);
    let inventory = input.inventory.expect("inventory");
    assert_eq!(inventory.vms.len(), 1);
    assert_eq!(inventory.vms[0].name, "corp-vm");
    assert_eq!(inventory.vms[0].env.as_deref(), Some("work"));
    assert!(inventory.vms[0].features.graphics);
    assert!(inventory.vms[0].features.tpm);
    assert!(inventory.vms[0].features.usbip);
    assert_eq!(inventory.vms[0].static_ip.as_deref(), Some("10.1.0.10"));
    assert_eq!(input.statuses.len(), 1);
    assert_eq!(input.statuses[0].state, RuntimeState::Running);
    assert!(input.statuses[0].pending_restart);
    let usb = input.usb.expect("usb");
    assert_eq!(usb.claims.len(), 1);
    assert!(usb.claims[0].bound);
    assert_eq!(usb.claims[0].owner_vm.as_deref(), Some("corp-vm"));
    assert!(input.audio.is_none());
    assert_eq!(daemon.requests[1]["type"], "authStatus");
    assert_eq!(daemon.requests[2]["type"], "list");
    assert_eq!(daemon.requests[3]["vm"], "corp-vm");
    assert_eq!(daemon.requests[4]["type"], "usbipProbe");
}

#[test]
fn operation_capabilities_are_read() {
    let list = r#"{
        "type": "listResponse",
        "vms": [{
            "env": "work",
            "lifecycle": { "pendingRestart": false, "state": "Stopped" },
            "runtime": {
                "detail": "stopped",
                "operationCapabilities": {
                    "media": { "usbHotplug": true },
                    "guest": { "exec": false },
                    "storage": { "storeSync": false }
                }
            },
            "sshUser": "alice",
            "vm": "corp-vm"
        }]
    }"#;
    let status = r#"{
        "type": "statusResponse",
        "vms": [{
            "lifecycle": { "pendingRestart": true, "state": "Running" },
            "runtime": {
                "detail": "running",
                "operationCapabilities": {
                    "lifecycle": { "switch": false },
                    "media": { "usbHotplug": true },
                    "guest": { "exec": false },
                    "storage": { "storeSync": false }
                }
            },
            "vm": "corp-vm"
        }]
    }"#;
    let flat_auth = r#"{
        "type": "authStatusResponse",
        "allowedSubcommands": ["list", "status", "usb probe"],
        "deniedSubcommands": [],
        "role": "admin",
        "sockets": []
    }"#;
    let mut daemon = Script::new(&[HELLO_OK, flat_auth, list, status, USB]);

    let input = daemon.refresh();

    assert_eq!(input.auth.expect("auth").role, AuthRole::Admin);
    let inventory = input.inventory.expect("inventory");
    assert!(!inventory.vms[0].features.graphics);
    assert!(!inventory.vms[0].features.tpm);
    assert!(!inventory.vms[0].features.usbip);
    assert!(!inventory.vms[0].features.audio);
    assert!(inventory.vms[0].capabilities.usb_hotplug);
    assert!(!inventory.vms[0].capabilities.terminal);
    assert_eq!(input.statuses[0].state, RuntimeState::Running);
    assert!(input.statuses[0].pending_restart);
    assert!(!input.statuses[0].capabilities.store_verify);
}

#[test]
fn fragments_that_fail_are_left_out() {
    let denied = failure("authz-not-admin", "requires admin role", "join group");
    let mut daemon = Script::new(&[
        HELLO_OK, AUTH, AUDIO_LIST, &denied, NOT_JSON, &denied,
    ]);

    let input = daemon.refresh();

    assert_eq!(input.connectivity, Connectivity::Connected);
    assert_eq!(input.inventory.expect("inventory").vms.len(), 1);
    assert!(input.statuses.is_empty());
    assert!(input.usb.is_none());
    assert!(input.audio.is_none());
}

#[test]
fn denied_refresh_is_connected_without_a_role() {
    let denied = failure("authz-requires-launcher", "not for you", "ask an admin");
    let mut daemon = Script::new(&[HELLO_OK, &denied]);

    let input = daemon.refresh();

    assert_eq!(input.connectivity, Connectivity::Connected);
    assert_eq!(input.auth.expect("auth").role, AuthRole::NoRole);
    assert!(input.inventory.is_none());
    let state = wlcontrol::reduce::reduce(input);
    assert_eq!(state.connectivity, Connectivity::AuthDenied);
    assert!(state.vms.is_empty());
}

#[test]
fn public_socket_version_mismatch_rejection_is_protocol_error() {
    let mut daemon = Script::new(&[HELLO_REJECTED]);
    let error = daemon.dispatch(&SocketIntent::List).expect_err("rejects");
    assert!(
        matches!(error, WlError::Protocol(_)),
        "expected protocol error, got {error:?}"
    );
    daemon.assert_requests(&[HELLO]);
}

#[test]
fn unsupported_selected_version_ends_the_conversation() {
    let hello = r#"{ "type": "helloOk", "serverVersion": "0.5.0", "selectedVersion": "0.5.0", "capabilities": [] }"#;
    let error = Script::new(&[hello])
        .dispatch(&vm_start())
        .expect_err("unsupported");
    assert!(matches!(error, WlError::Protocol(_)), "{error:?}");
    assert_degraded_refresh(&Script::new(&[hello]).refresh());
}

#[test]
fn public_socket_absent_socket_reports_daemon_down() {
    let client = client();
    let input = client.refresh(Err(missing_socket(client.socket_path())));
    assert_eq!(input.connectivity, Connectivity::DaemonDown);
    assert_degraded_refresh(&input);
}

#[test]
fn public_socket_vm_start_dispatch_returns_applied_summary() {
    let answer = mutating("applied", "started corp-vm", "");
    let mut daemon = Script::new(&[HELLO_OK, &answer]);
    let outcome = daemon.dispatch(&vm_start()).expect("dispatch");
    assert_eq!(outcome.summary, "started corp-vm");
    daemon.assert_requests(&[
        HELLO,
        r#"{ "type": "vmStart", "vm": "corp-vm", "noWaitApi": true, "dryRun": false, "apply": true, "json": true }"#,
    ]);
}

#[test]
fn full_volume_is_in_range() {
    let mut daemon = Script::new(&[HELLO_OK, AUDIO_MUTED]);
    let outcome = daemon
        .dispatch(&SocketIntent::AudioSetVolume {
            vm: "corp-vm".to_owned(),
            channel: AudioChannel::Microphone,
            level_percent: 100,
        })
        .expect("dispatch");
    assert_eq!(outcome.summary, "audio corp-vm microphone level: 100%");
}

#[test]
fn unheard_of_outcomes_are_protocol_errors() {
    let answer = mutating("pending", "later", "");
    let error = Script::new(&[HELLO_OK, &answer])
        .dispatch(&vm_start())
        .expect_err("unknown outcome");
    assert_eq!(
        error,
        WlError::Protocol("unknown mutating verb outcome 'pending'".to_owned())
    );
    let error = Script::new(&[HELLO_OK, r#"{"type": "mutatingVerbResponse"}"#])
        .dispatch(&vm_start())
        .expect_err("no outcome");
    assert!(matches!(error, WlError::Protocol(_)), "{error:?}");
    let error = Script::new(&[HELLO_OK, LIST])
        .dispatch(&vm_start())
        .expect_err("another answer");
    assert_eq!(
        error,
        WlError::Protocol("expected mutatingVerbResponse, got listResponse".to_owned())
    );
}

#[test]
fn mutating_verb_error_maps_to_wl_error() {
    let answer = mutating("broker-error", "broker refused", "inspect daemon logs");
    let error = Script::new(&[HELLO_OK, &answer])
        .dispatch(&vm_start())
        .expect_err("broker error");
    assert!(matches!(error, WlError::Nixling(message) if message.contains("broker refused")));
}

#[test]
fn read_intents_are_summed_up() {
    let cases = [
        (SocketIntent::List, LIST, "listed 1 VM(s)"),
        (
            SocketIntent::Status {
                vm: "corp-vm".to_owned(),
            },
            STATUS,
            "corp-vm status: Running",
        ),
        (SocketIntent::AuthStatus, AUTH, "auth role: Admin"),
        (SocketIntent::UsbProbe, USB, "probed 1 USB claim(s)"),
        (
            SocketIntent::StoreVerify {
                vm: "corp-vm".to_owned(),
            },
            r#"{ "type": "storeVerifyResponse", "vm": "corp-vm", "status": "ok", "checked": 12, "drifted": 1 }"#,
            "store verify corp-vm: status=ok checked=12 drifted=1 repaired=0",
        ),
    ];
    for (intent, answer, summary) in cases {
        let outcome = Script::new(&[HELLO_OK, answer])
            .dispatch(&intent)
            .expect("dispatch");
        assert_eq!(outcome.summary, summary);
    }
}

#[test]
fn status_prefers_the_entry_of_the_vm() {
    let intent = SocketIntent::Status {
        vm: "corp-vm".to_owned(),
    };
    let cases = [
        (
            r#"{ "type": "statusResponse", "vms": [{ "vm": "a" }, { "vm": "corp-vm", "lifecycle": { "state": "Stopped" } }] }"#,
            "corp-vm status: Stopped",
        ),
        (
            r#"{ "kind": "status", "payload": { "entries": [{ "name": "a" }, { "name": "b" }] } }"#,
            "a status: Unknown",
        ),
        (
            r#"{ "type": "statusResponse", "vm": { "lifecycle": { "state": "Starting" } } }"#,
            "corp-vm status: Starting",
        ),
    ];
    for (answer, summary) in cases {
        let outcome = Script::new(&[HELLO_OK, answer])
            .dispatch(&intent)
            .expect("dispatch");
        assert_eq!(outcome.summary, summary);
    }
    let error = Script::new(&[HELLO_OK, r#"{ "type": "statusResponse", "vms": [] }"#])
        .dispatch(&intent)
        .expect_err("no entry");
    assert_eq!(
        error,
        WlError::Protocol("status response did not contain an entry for VM 'corp-vm'".to_owned())
    );
}

#[test]
fn nixling_refuses_the_broker_socket() {
    let client = NixlingClient::new(&Config {
        public_socket: "/run/other/priv.sock".to_owned(),
        ..Default::default()
    });
    let refused = WlError::Config(BROKER_SOCKET_MESSAGE.to_owned());
    match client.dispatch(&vm_start()) {
        DispatchStep::Done { result } => assert_eq!(result, Err(refused.clone())),
        DispatchStep::Send { .. } => panic!("nothing may be sent"),
    }
    match client.try_refresh() {
        RefreshStep::Done { result } => assert_eq!(result, Err(refused)),
        RefreshStep::Send { .. } => panic!("nothing may be sent"),
    }
}

#[test]
fn audio_is_asked_for_where_it_is_declared() {
    let audio = r#"{
        "type": "audioOpResponse",
        "op": "status",
        "result": {
            "entries": [{
                "vm": "corp-vm",
                "speaker": { "level": 80, "muted": false },
                "microphone": { "level": 50, "muted": true }
            }],
            "errors": []
        }
    }"#;
    let mut daemon = Script::new(&[HELLO_OK, AUTH, AUDIO_LIST, STATUS, USB, audio]);
    let input = daemon.refresh();
    let audio = input.audio.expect("audio");
    assert_eq!(audio.entries[0].audio.speaker.level, Some(80));
    assert_eq!(daemon.requests[5]["op"], "status");
}

#[test]
fn lost_inventory_fails_the_refresh() {
    let input = Script::new(&[HELLO_OK, AUTH]).and_then_receive(b"").refresh();
    assert_degraded_refresh(&input);
    let input = Script::new(&[HELLO_OK, AUTH, NOT_JSON]).refresh();
    assert_degraded_refresh(&input);
}

#[test]
fn records_are_read_by_position_as_well() {
    let cases = [
        (
            r#"{ "type": "error", "error": ["authz-x", null, "no"] }"#,
            Err(WlError::Denied("authz-x: no".to_owned())),
        ),
        (
            r#"{ "kind": "error", "payload": ["odd", 11, "no", "ask"] }"#,
            Err(WlError::Denied("odd: no (ask)".to_owned())),
        ),
        (
            r#"{ "type": "error", "error": ["odd", 1, "no", null] }"#,
            Err(WlError::Nixling("odd: no".to_owned())),
        ),
        (
            r#"{ "type": "error", "error": ["odd", 1] }"#,
            Err(WlError::Nixling("error: nixlingd returned an error".to_owned())),
        ),
        (
            r#"{ "type": "error", "error": ["odd", 1, "no", null, 5] }"#,
            Err(WlError::Nixling("error: nixlingd returned an error".to_owned())),
        ),
        (r#"["vm start", "applied"]"#, Ok("vm start applied")),
        (
            r#"{ "kind": "mutating verb", "payload": ["v", "applied", null, "done"] }"#,
            Ok("done"),
        ),
        (
            r#"["v", "broker-error", "w2", "s", "r"]"#,
            Err(WlError::Nixling(
                "v returned broker-error: s (target wave w2); r".to_owned(),
            )),
        ),
        (
            r#"["v", "applied", null, null, null, null]"#,
            Err(WlError::Protocol("malformed mutatingVerbResponse".to_owned())),
        ),
    ];
    for (answer, wanted) in cases {
        let result = Script::new(&[HELLO_OK, answer]).dispatch(&vm_start());
        assert_eq!(
            result.map(|outcome| outcome.summary),
            wanted.map(str::to_owned),
            "{answer}"
        );
    }
    let verify = SocketIntent::StoreVerify {
        vm: "a".to_owned(),
    };
    let outcome = Script::new(&[HELLO_OK, r#"["a", "ok", 3]"#])
        .dispatch(&verify)
        .expect("dispatch");
    assert_eq!(
        outcome.summary,
        "store verify a: status=ok checked=3 drifted=0 repaired=0"
    );
    let error = Script::new(&[HELLO_OK, r#"["a", "ok", null]"#])
        .dispatch(&verify)
        .expect_err("null is no count");
    assert!(matches!(error, WlError::Protocol(_)), "{error:?}");
}

#[test]
fn reported_errors_are_returned_for_every_answer() {
    let cases = [
        (
            r#"{ "type": "error", "error": { "kind": "authz-not-launcher", "message": "no" } }"#,
            WlError::Denied("authz-not-launcher: no".to_owned()),
        ),
        (
            r#"{ "kind": "error", "payload": { "kind": "wire-odd", "message": "no", "remediation": "upgrade" } }"#,
            WlError::Protocol("wire-odd: no (upgrade)".to_owned()),
        ),
        (
            r#"{ "type": "error" }"#,
            WlError::Nixling("error: nixlingd returned an error".to_owned()),
        ),
    ];
    for (reply, error) in cases {
        let value = parse(reply.as_bytes()).expect("document");
        assert_eq!(auth_from_reply(&value), Err(error.clone()));
        assert_eq!(inventory_from_reply(&value), Err(error.clone()));
        assert_eq!(status_from_reply(&value, "corp-vm"), Err(error.clone()));
        assert_eq!(status_model_from_reply(&value).err(), Some(error.clone()));
        assert_eq!(mutation_from_reply(&value), Err(error.clone()));
        assert_eq!(parse_store_verify(&value), Err(error.clone()));
        assert_eq!(usb_probe_from_reply(&value), Err(error.clone()));
        assert_eq!(audio_status_from_reply(&value), Err(error.clone()));
        assert_eq!(audio_op_from_reply(&value), Err(error));
    }
}
