use wlcontrol::cli::waybar_round;
use wlcontrol::client::refresh_end;
use wlcontrol::config::Config;
use wlcontrol::model::{
    ActionAvailability, ActionKind, AuthRole, Connectivity, PlannedAction, RuntimeState,
    Unavailable, UsbClaim, Vm, WlState,
};
use wlcontrol::plan::{plan, role_satisfies, vm_actions};
use wlcontrol::process::{ProcessIdentity, WaybarPidRecord};
use wlcontrol::protocol::{Request, request_payload};
use wlcontrol::reduce::{RefreshEnd, carry_over, reduce_with_config};
use wlcontrol::sources::{Auth, Inventory, InventoryVm, ReduceInput, VmStatus};
use wlcontrol::view_model::{
    action_label, action_vm_name, empty_group_message, role_indicator, usb_summary,
    visible_vm_groups,
};
use wlcontrol::waybar::render;
use wlcontrol::wire::{MAX_FRAME_BYTES, decode_frame, encode_frame};
use wlcontrol::WlError;

fn vm(name: &str, state: RuntimeState) -> Vm {
    Vm {
        name: name.to_owned(),
        state,
        ..Default::default()
    }
}

fn connected(role: AuthRole, vms: Vec<Vm>) -> WlState {
    WlState {
        connectivity: Connectivity::Connected,
        role,
        vms,
        ..Default::default()
    }
}

fn busy_state(role: AuthRole) -> WlState {
    let mut corp = vm("corp-vm", RuntimeState::Running);
    corp.usb = vec![
        UsbClaim {
            vm: "corp-vm".to_owned(),
            env: "work".to_owned(),
            bus_id: "1-1".to_owned(),
            bound: true,
            owner_vm: Some("dev-vm".to_owned()),
        },
        UsbClaim {
            vm: "corp-vm".to_owned(),
            env: "work".to_owned(),
            bus_id: "1-2".to_owned(),
            bound: false,
            owner_vm: None,
        },
    ];
    connected(role, vec![corp, vm("dev-vm", RuntimeState::Stopped)])
}

const ROLES: [AuthRole; 3] = [AuthRole::NoRole, AuthRole::Launcher, AuthRole::Admin];

#[test]
fn listings_agree_with_planning() {
    let config = Config::default();
    for role in ROLES {
        let state = busy_state(role);
        for name in ["corp-vm", "dev-vm", "absent"] {
            for entry in vm_actions(&state, &config, name) {
                let planned = plan(&entry.action, &state, &config);
                assert_eq!(entry.is_available(), planned.is_ok());
                assert_eq!(planned.err(), entry.unavailable);
                assert_eq!(action_vm_name(&entry.action), Some(name));
            }
        }
    }
}

#[test]
fn higher_roles_keep_actions() {
    let config = Config::default();
    for low in ROLES {
        for high in ROLES {
            if !role_satisfies(high, low) {
                continue;
            }
            let (before, after) = (busy_state(low), busy_state(high));
            for entry in vm_actions(&before, &config, "corp-vm") {
                if let Ok(planned) = plan(&entry.action, &before, &config) {
                    assert_ne!(low, AuthRole::NoRole);
                    assert_eq!(plan(&entry.action, &after, &config), Ok(planned));
                }
            }
        }
    }
}

#[test]
fn foreign_devices_are_safe() {
    let state = busy_state(AuthRole::Admin);
    for action in [
        ActionKind::UsbAttach {
            vm: "corp-vm".to_owned(),
            bus_id: "1-1".to_owned(),
        },
        ActionKind::UsbDetach {
            vm: "corp-vm".to_owned(),
            bus_id: "1-1".to_owned(),
        },
    ] {
        assert_eq!(
            plan(&action, &state, &Config::default()),
            Err(Unavailable::UsbOwnedElsewhere {
                owner: "dev-vm".to_owned()
            })
        );
    }
}

#[test]
fn guest_commands_are_passed_on_verbatim() {
    let mut config = Config::default();
    config.terminal.guest_argv = vec!["/bin/sh".to_owned(), "-c; rm".to_owned(), "$HOME".to_owned()];
    let action = ActionKind::LaunchTerminal {
        vm: "corp-vm".to_owned(),
    };
    let planned = plan(&action, &busy_state(AuthRole::Admin), &config);
    match planned {
        Ok(PlannedAction::Process { argv, .. }) => {
            assert_eq!(argv[argv.len() - 3..], config.terminal.guest_argv);
            assert!(argv.contains(&"corp-vm".to_owned()));
        }
        other => panic!("{other:?}"),
    }
}

#[test]
fn availability_is_told_by_the_reason() {
    let action = ActionKind::Refresh;
    assert!(ActionAvailability::available(action.clone()).is_available());
    let blocked = ActionAvailability::blocked(action.clone(), Unavailable::DaemonDown);
    assert!(!blocked.is_available());
    assert_eq!(blocked.action, action);
}

fn reported(name: &str, coarse: Option<&str>, status: Option<RuntimeState>) -> ReduceInput {
    ReduceInput {
        connectivity: Connectivity::Connected,
        auth: Some(Auth {
            role: AuthRole::Admin,
        }),
        inventory: Some(Inventory {
            vms: vec![InventoryVm {
                name: name.to_owned(),
                env: None,
                is_net_vm: false,
                features: Default::default(),
                capabilities: Default::default(),
                static_ip: None,
                coarse_status: coarse.map(str::to_owned),
            }],
        }),
        statuses: status
            .into_iter()
            .map(|state| VmStatus {
                name: name.to_owned(),
                state,
                pending_restart: false,
                readiness: vec![],
                capabilities: Default::default(),
            })
            .collect(),
        usb: None,
        audio: None,
    }
}

#[test]
fn running_is_shown_only_where_the_status_says_so() {
    let config = Config::default();
    let cases = [
        (Some("running"), None, RuntimeState::Unknown),
        (Some("running (pid 7)"), Some(RuntimeState::Running), RuntimeState::Running),
        (Some("running"), Some(RuntimeState::Stopped), RuntimeState::Unknown),
        (Some("running"), Some(RuntimeState::Starting), RuntimeState::Starting),
        (Some("stopped"), Some(RuntimeState::Running), RuntimeState::Unknown),
        (Some("stopped"), None, RuntimeState::Stopped),
        (Some("odd"), None, RuntimeState::Unknown),
        (None, Some(RuntimeState::Running), RuntimeState::Running),
        (None, None, RuntimeState::Unknown),
    ];
    for (coarse, status, shown) in cases {
        let state = reduce_with_config(reported("a", coarse, status), &config);
        assert_eq!(state.vms[0].state, shown, "{coarse:?} {status:?}");
    }
}

#[test]
fn net_vms_are_found_by_flag_or_name() {
    let config = Config::default();
    for (name, net) in [
        ("sys-work-net", true),
        ("sys--net", false),
        ("sys-net", false),
        ("work-net", false),
    ] {
        let state = reduce_with_config(reported(name, None, None), &config);
        assert_eq!(state.vms[0].is_net_vm, net, "{name}");
    }
}

#[test]
fn lines_tell_the_posture() {
    let mut attention = vm("b", RuntimeState::Stopped);
    attention.pending_restart = true;
    attention.env = Some("work".to_owned());
    let mut hidden = vm("h", RuntimeState::Unknown);
    hidden.hidden = true;
    let mut net = vm("sys-work-net", RuntimeState::Running);
    net.is_net_vm = true;

    let mut state = connected(AuthRole::Admin, vec![vm("a", RuntimeState::Running)]);
    assert_eq!(render(&state).text, "◆ 1/1");
    assert_eq!(render(&state).class, ["all-running"]);
    state.vms.push(hidden);
    state.vms.push(net);
    assert_eq!(render(&state).class, ["all-running"]);
    state.vms.push(attention);
    state.vms.push(vm("c", RuntimeState::Stopping));
    state.stale = true;
    let line = render(&state);
    assert_eq!(line.text, "◆ 1/3 !");
    assert_eq!(line.class, ["partial-running", "attention", "stale"]);
    assert_eq!(
        line.tooltip,
        "● a [-]\n? h [-]\n○ b [work] (pending restart)\n◐ c [-]"
    );

    let empty = connected(AuthRole::Admin, vec![]);
    assert_eq!(render(&empty).text, "◆ 0/0");
    assert_eq!(render(&empty).class, ["all-stopped"]);
    assert_eq!(render(&empty).tooltip, "No VMs declared");
    let denied = WlState {
        connectivity: Connectivity::AuthDenied,
        ..Default::default()
    };
    assert_eq!(render(&denied).class, ["auth-denied"]);
}

#[test]
fn lines_are_written_as_documents() {
    let mut odd = vm("a \"b\"\n", RuntimeState::Running);
    odd.env = Some("é".to_owned());
    let line = render(&connected(AuthRole::Admin, vec![odd]));
    let text = line.to_json_line();
    assert_eq!(text.matches('\n').count(), 1);
    let document: serde_json::Value = serde_json::from_str(&text).expect("document");
    assert_eq!(document["text"], "◆ 1/1");
    assert_eq!(document["class"][0], "all-running");
    assert_eq!(document["tooltip"], "● a \"b\"\n [é]");
}

#[test]
fn groups_hold_every_vm_once() {
    let mut vms = vec![
        vm("a", RuntimeState::Running),
        vm("b", RuntimeState::Running),
        vm("c", RuntimeState::Running),
    ];
    vms[0].env = Some("work".to_owned());
    vms[2].env = Some("work".to_owned());
    let state = connected(AuthRole::Admin, vms);
    let groups = visible_vm_groups(&state, true);
    let total: usize = groups.iter().map(|group| group.vms.len()).sum();
    assert_eq!(groups.len(), 2);
    assert_eq!(total, 3);
}

#[test]
fn labels_name_actions_and_roles() {
    assert_eq!(action_label(&ActionKind::Refresh), "Refresh");
    let stop = ActionKind::ForceStop {
        vm: "a".to_owned(),
    };
    assert_eq!(action_label(&stop), "Force stop");
    assert_eq!(action_vm_name(&stop), Some("a"));
    assert_eq!(action_vm_name(&ActionKind::CycleDisplay), None);
    assert_eq!(
        role_indicator(&connected(AuthRole::Launcher, vec![])),
        "role: launcher"
    );
    assert_eq!(role_indicator(&WlState::default()), "daemon down");
    assert_ne!(empty_group_message(true), empty_group_message(false));
    assert_eq!(usb_summary(&vec![]), "");
}

#[test]
fn records_round_trip() {
    for (pid, ticks) in [(0, 0), (1, u64::MAX), (u32::MAX, 10)] {
        let record = WaybarPidRecord {
            pid,
            start_time: ticks,
        };
        assert_eq!(WaybarPidRecord::parse(&record.serialize()), Some(record));
        let identity = ProcessIdentity {
            pid,
            start_time_ticks: ticks,
        };
        assert_eq!(ProcessIdentity::parse(&identity.serialize()), Some(identity));
    }
}

#[test]
fn frames_tell_payloads_apart() {
    let payloads: [&[u8]; 4] = [b"", b"a", b"ab", b"\0\0\0\0"];
    for (i, first) in payloads.iter().enumerate() {
        let frame = encode_frame(first).expect("frame");
        assert_eq!(frame[..4], (first.len() as u32).to_le_bytes());
        assert_eq!(decode_frame(&frame), Ok(*first));
        for (j, second) in payloads.iter().enumerate() {
            assert_eq!(frame == encode_frame(second).expect("frame"), i == j);
        }
    }
    let largest = vec![7_u8; MAX_FRAME_BYTES];
    let frame = encode_frame(&largest).expect("frame");
    assert_eq!(decode_frame(&frame), Ok(largest.as_slice()));
    assert!(encode_frame(&vec![7_u8; MAX_FRAME_BYTES + 1]).is_err());
}

#[test]
fn mutations_are_applied() {
    let vm = || "corp-vm".to_owned();
    let requests = [
        Request::VmStart { vm: vm() },
        Request::VmStop {
            vm: vm(),
            force: false,
        },
        Request::VmStop {
            vm: vm(),
            force: true,
        },
        Request::VmRestart { vm: vm() },
        Request::Switch { vm: vm() },
        Request::Boot { vm: vm() },
        Request::UsbBind {
            vm: vm(),
            bus_id: "1-2".to_owned(),
        },
        Request::UsbUnbind {
            vm: vm(),
            bus_id: "1-2".to_owned(),
        },
    ];
    for request in &requests {
        let payload = request_payload(request).expect("payload");
        let document: serde_json::Value = serde_json::from_slice(&payload).expect("document");
        assert_eq!(document["apply"], true);
        assert_eq!(document["dryRun"], false);
        assert_eq!(document["vm"], "corp-vm");
        let forced = matches!(request, Request::VmStop { force: true, .. });
        assert_eq!(document.get("force").is_some(), forced);
    }
    let payload = request_payload(&Request::UsbBind {
        vm: vm(),
        bus_id: "1-2".to_owned(),
    })
    .expect("payload");
    assert_eq!(
        String::from_utf8(payload).as_deref(),
        Ok(
            r#"{"apply":true,"busId":"1-2","dryRun":false,"json":true,"type":"usbipBind","vm":"corp-vm"}"#
        )
    );
}

#[test]
fn net_vms_are_shown_where_the_configuration_says_so() {
    let running = Some(RuntimeState::Running);
    let mut config = Config::default();
    for (hide, hidden_too, visible) in [
        (true, false, 0),
        (true, true, 0),
        (false, false, 1),
        (false, true, 0),
    ] {
        config.hide_net_vms = hide;
        config.hidden_vms.clear();
        if hidden_too {
            config.hidden_vms.push("sys-work-net".to_owned());
        }
        let state = reduce_with_config(reported("sys-work-net", Some("running"), running), &config);
        assert!(state.vms[0].is_net_vm);
        assert_eq!(state.visible_count(), visible);
        assert_eq!(state.running_count(), visible);
        assert_eq!(visible_vm_groups(&state, false).len(), visible);
        let line = render(&state);
        assert_eq!(line.text, format!("◆ {visible}/{visible}"));
        let tooltip = if hide {
            "No VMs declared"
        } else {
            "● sys-work-net [-]"
        };
        assert_eq!(line.tooltip, tooltip);
    }
    config.hidden_vms.clear();
    let state = reduce_with_config(reported("sys-work-net", Some("running"), None), &config);
    assert!(state.needs_attention());
}

#[test]
fn hidden_vms_count_nowhere() {
    let mut net = vm("sys-work-net", RuntimeState::Unknown);
    net.is_net_vm = true;
    let mut hidden = vm("h", RuntimeState::Unknown);
    hidden.hidden = true;
    let plain = vec![
        vm("a", RuntimeState::Running),
        vm("b", RuntimeState::Stopped),
    ];
    let state = connected(AuthRole::Admin, plain.clone());
    for i in 0..=plain.len() {
        for extra in [&net, &hidden] {
            let mut vms = plain.clone();
            vms.insert(i, extra.clone());
            let larger = connected(AuthRole::Admin, vms);
            assert_eq!(larger.running_count(), state.running_count());
            assert_eq!(larger.visible_count(), state.visible_count());
            assert_eq!(larger.needs_attention(), state.needs_attention());
        }
        let mut vms = plain.clone();
        vms.insert(i, net.clone());
        assert_eq!(render(&connected(AuthRole::Admin, vms)), render(&state));
    }
}

#[test]
fn lost_refreshes_reuse_the_last_state() {
    let last = connected(AuthRole::Admin, vec![vm("a", RuntimeState::Running)]);
    let down = WlState::default();
    let lost = refresh_end(&Err(WlError::Timeout("late".to_owned())), true);
    assert_eq!(lost, RefreshEnd::Lost);
    let shown = carry_over(Some(&last), down.clone(), lost);
    assert!(shown.stale);
    assert_eq!(
        shown,
        WlState {
            stale: true,
            ..last.clone()
        }
    );
    assert_eq!(render(&shown).class, ["all-running", "stale"]);
    assert_eq!(carry_over(None, down.clone(), lost), down);
    let fresh = connected(AuthRole::Launcher, vec![]);
    let settled = refresh_end(&Ok(ReduceInput::default()), true);
    assert_eq!(settled, RefreshEnd::Settled);
    assert_eq!(carry_over(Some(&shown), fresh.clone(), settled), fresh);
}

#[test]
fn unreachable_daemons_are_shown_as_down() {
    let last = connected(AuthRole::Admin, vec![vm("a", RuntimeState::Running)]);
    let down = WlState::default();
    let end = refresh_end(&Err(WlError::DaemonDown("gone".to_owned())), false);
    assert_eq!(end, RefreshEnd::Unreachable);
    let shown = carry_over(Some(&last), down.clone(), end);
    assert_eq!(shown, down);
    assert_eq!(render(&shown).class, ["daemon-down"]);
}

#[test]
fn refusals_are_shown_as_such() {
    let last = connected(AuthRole::Admin, vec![vm("a", RuntimeState::Running)]);
    let denied = WlState {
        connectivity: Connectivity::AuthDenied,
        ..Default::default()
    };
    for reached in [false, true] {
        let end = refresh_end(&Err(WlError::Denied("no role".to_owned())), reached);
        assert_eq!(end, RefreshEnd::Settled);
        assert_eq!(carry_over(Some(&last), denied.clone(), end), denied);
    }
}

#[test]
fn settled_states_outlive_failures() {
    let settled = connected(AuthRole::Admin, vec![vm("a", RuntimeState::Running)]);
    let first = waybar_round(None, settled.clone(), RefreshEnd::Settled, 2_500, 3);
    assert_eq!(first.shown, settled);
    assert_eq!(first.last, Some(settled.clone()));
    assert_eq!((first.pause_ms, first.daemon_down_cycles), (2_500, 0));

    let down = WlState::default();
    let second = waybar_round(
        first.last,
        down.clone(),
        RefreshEnd::Unreachable,
        first.pause_ms,
        first.daemon_down_cycles,
    );
    assert_eq!(second.shown, down);
    assert_eq!(second.last, Some(settled.clone()));
    assert_eq!((second.pause_ms, second.daemon_down_cycles), (2_500, 1));

    let third = waybar_round(
        second.last,
        down.clone(),
        RefreshEnd::Lost,
        2_500,
        second.daemon_down_cycles,
    );
    assert_eq!(
        third.shown,
        WlState {
            stale: true,
            ..settled.clone()
        }
    );
    assert_eq!(third.last, Some(settled));
    assert_eq!((third.pause_ms, third.daemon_down_cycles), (5_000, 2));
}

#[test]
fn favorites_are_pinned_in_their_order() {
    let mut input = reported("a", None, None);
    let declared = input.inventory.as_mut().expect("inventory");
    for name in ["sys-x", "b", "c", "sys-y", "d"] {
        let mut vm = declared.vms[0].clone();
        vm.name = name.to_owned();
        declared.vms.push(vm);
    }
    let config = Config {
        favorites: ["sys-y", "c", "absent", "a", "c"]
            .iter()
            .map(|name| name.to_string())
            .collect(),
        ..Default::default()
    };
    let state = reduce_with_config(input, &config);
    let order: Vec<&str> = state.vms.iter().map(|vm| vm.name.as_str()).collect();
    assert_eq!(order, ["c", "a", "b", "d", "sys-y", "sys-x"]);
}
