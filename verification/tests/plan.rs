use wlcontrol::config::{Config, QuickLaunchConfig, TerminalConfig};
use wlcontrol::model::{
    ActionKind, AuthRole, Connectivity, PlannedAction, RuntimeState, SocketIntent, Unavailable,
    UsbClaim, Vm, WlState,
};
use wlcontrol::plan::{block_reason, plan, vm_actions};

fn connected_state(role: AuthRole, vms: Vec<Vm>) -> WlState {
    WlState {
        connectivity: Connectivity::Connected,
        role,
        vms,
        stale: false,
        note: None,
    }
}

fn vm(name: &str, state: RuntimeState) -> Vm {
    Vm {
        name: name.into(),
        state,
        ..Default::default()
    }
}

fn usb_claim(vm: &str, bus_id: &str, bound: bool, owner_vm: Option<&str>) -> UsbClaim {
    UsbClaim {
        vm: vm.into(),
        env: "work".into(),
        bus_id: bus_id.into(),
        bound,
        owner_vm: owner_vm.map(str::to_owned),
    }
}

#[test]
fn daemon_down_blocks_lifecycle() {
    let state = WlState {
        connectivity: Connectivity::DaemonDown,
        ..Default::default()
    };
    let reason = block_reason(
        &ActionKind::Start {
            vm: "corp-vm".into(),
        },
        &state,
    );
    assert!(matches!(reason, Some(Unavailable::DaemonDown)));
}

#[test]
fn terminal_requires_admin() {
    let state = connected_state(
        AuthRole::Launcher,
        vec![vm("corp-vm", RuntimeState::Running)],
    );
    let reason = block_reason(
        &ActionKind::LaunchTerminal {
            vm: "corp-vm".into(),
        },
        &state,
    );
    assert!(matches!(
        reason,
        Some(Unavailable::InsufficientRole {
            required: AuthRole::Admin
        })
    ));
}

#[test]
fn role_gating_distinguishes_lifecycle_and_terminal_privileges() {
    let no_role = connected_state(AuthRole::NoRole, vec![vm("corp-vm", RuntimeState::Stopped)]);
    let lifecycle = ActionKind::Start {
        vm: "corp-vm".into(),
    };
    assert!(matches!(
        plan(&lifecycle, &no_role, &Config::default()),
        Err(Unavailable::InsufficientRole {
            required: AuthRole::Admin
        })
    ));

    let launcher = connected_state(
        AuthRole::Launcher,
        vec![vm("corp-vm", RuntimeState::Stopped)],
    );
    assert!(matches!(
        plan(&lifecycle, &launcher, &Config::default()),
        Err(Unavailable::InsufficientRole {
            required: AuthRole::Admin
        })
    ));
    let build = ActionKind::Build {
        vm: "corp-vm".into(),
    };
    assert!(plan(&build, &launcher, &Config::default()).is_ok());

    let running_launcher = connected_state(
        AuthRole::Launcher,
        vec![vm("corp-vm", RuntimeState::Running)],
    );
    let terminal = ActionKind::LaunchTerminal {
        vm: "corp-vm".into(),
    };
    assert!(matches!(
        plan(&terminal, &running_launcher, &Config::default()),
        Err(Unavailable::InsufficientRole {
            required: AuthRole::Admin
        })
    ));

    let admin = connected_state(AuthRole::Admin, vec![vm("corp-vm", RuntimeState::Running)]);
    assert!(plan(&terminal, &admin, &Config::default()).is_ok());
}

#[test]
fn terminal_argv_has_no_shell_string() {
    let state = connected_state(AuthRole::Admin, vec![vm("corp-vm", RuntimeState::Running)]);
    let config = Config::default();
    let planned = plan(
        &ActionKind::LaunchTerminal {
            vm: "corp-vm".into(),
        },
        &state,
        &config,
    )
    .expect("plannable");
    match planned {
        PlannedAction::Process { argv, wait } => {
            assert!(wait);
            assert_eq!(argv[0], "d2b");
            assert!(argv.contains(&"corp-vm".to_owned()));
            assert!(argv.contains(&"-d".to_owned()));
            assert!(!argv.contains(&"-it".to_owned()));
            assert!(argv.iter().all(|a| !a.contains("&&") && !a.contains("|")));
        }
        other => panic!("expected process, got {other:?}"),
    }
}

#[test]
fn start_blocked_when_already_running() {
    let state = connected_state(AuthRole::Admin, vec![vm("corp-vm", RuntimeState::Running)]);
    let reason = block_reason(
        &ActionKind::Start {
            vm: "corp-vm".into(),
        },
        &state,
    );
    assert!(matches!(reason, Some(Unavailable::VmState { .. })));
}

#[test]
fn running_state_gates_stop_restart_switch_and_terminal() {
    let stopped_admin =
        connected_state(AuthRole::Admin, vec![vm("corp-vm", RuntimeState::Stopped)]);
    for action in [
        ActionKind::Stop {
            vm: "corp-vm".into(),
        },
        ActionKind::ForceStop {
            vm: "corp-vm".into(),
        },
        ActionKind::Restart {
            vm: "corp-vm".into(),
        },
        ActionKind::Switch {
            vm: "corp-vm".into(),
        },
    ] {
        assert!(matches!(
            plan(&action, &stopped_admin, &Config::default()),
            Err(Unavailable::VmState { .. })
        ));
    }

    let terminal = ActionKind::LaunchTerminal {
        vm: "corp-vm".into(),
    };
    assert!(matches!(
        plan(&terminal, &stopped_admin, &Config::default()),
        Err(Unavailable::VmState { .. })
    ));

    let running_launcher = connected_state(
        AuthRole::Launcher,
        vec![vm("corp-vm", RuntimeState::Running)],
    );
    for action in [
        ActionKind::Stop {
            vm: "corp-vm".into(),
        },
        ActionKind::ForceStop {
            vm: "corp-vm".into(),
        },
        ActionKind::Restart {
            vm: "corp-vm".into(),
        },
        ActionKind::Switch {
            vm: "corp-vm".into(),
        },
    ] {
        assert!(matches!(
            plan(&action, &running_launcher, &Config::default()),
            Err(Unavailable::InsufficientRole {
                required: AuthRole::Admin
            })
        ));
    }

    let running_admin =
        connected_state(AuthRole::Admin, vec![vm("corp-vm", RuntimeState::Running)]);
    assert!(plan(&terminal, &running_admin, &Config::default()).is_ok());
    for action in [
        ActionKind::Stop {
            vm: "corp-vm".into(),
        },
        ActionKind::ForceStop {
            vm: "corp-vm".into(),
        },
        ActionKind::Restart {
            vm: "corp-vm".into(),
        },
        ActionKind::Switch {
            vm: "corp-vm".into(),
        },
    ] {
        assert!(plan(&action, &running_admin, &Config::default()).is_ok());
    }
}

#[test]
fn runtime_capabilities_hide_unsupported_controls() {
    let mut qemu = vm("media-vm", RuntimeState::Running);
    qemu.capabilities.terminal = false;
    qemu.capabilities.store_verify = false;
    qemu.capabilities.switch = false;
    qemu.capabilities.build = false;
    qemu.capabilities.boot = false;
    let state = connected_state(AuthRole::Admin, vec![qemu]);

    for action in [
        ActionKind::LaunchTerminal {
            vm: "media-vm".into(),
        },
        ActionKind::StoreVerify {
            vm: "media-vm".into(),
        },
        ActionKind::Switch {
            vm: "media-vm".into(),
        },
        ActionKind::Build {
            vm: "media-vm".into(),
        },
        ActionKind::Boot {
            vm: "media-vm".into(),
        },
    ] {
        assert!(matches!(
            block_reason(&action, &state),
            Some(Unavailable::Blocked { detail }) if detail == "unsupported by this VM runtime"
        ));
    }

    assert!(block_reason(
        &ActionKind::UsbAttach {
            vm: "media-vm".into(),
            bus_id: "1-2".into(),
        },
        &state
    )
    .is_none());
}

#[test]
fn usb_attach_and_detach_respect_foreign_owner() {
    let mut owner = vm("dev-vm", RuntimeState::Running);
    owner
        .usb
        .push(usb_claim("dev-vm", "1-2", true, Some("dev-vm")));
    let state = connected_state(
        AuthRole::Admin,
        vec![vm("corp-vm", RuntimeState::Running), owner],
    );

    for action in [
        ActionKind::UsbAttach {
            vm: "corp-vm".into(),
            bus_id: "1-2".into(),
        },
        ActionKind::UsbDetach {
            vm: "corp-vm".into(),
            bus_id: "1-2".into(),
        },
    ] {
        assert!(matches!(
            plan(&action, &state, &Config::default()),
            Err(Unavailable::UsbOwnedElsewhere { owner }) if owner == "dev-vm"
        ));
    }

    let detach_owner = ActionKind::UsbDetach {
        vm: "dev-vm".into(),
        bus_id: "1-2".into(),
    };
    assert!(plan(&detach_owner, &state, &Config::default()).is_ok());
}

#[test]
fn audio_actions_are_not_yet_implemented_even_when_daemon_is_down() {
    let state = WlState {
        connectivity: Connectivity::DaemonDown,
        ..Default::default()
    };
    let actions = [
        ActionKind::AudioMic {
            vm: "corp-vm".into(),
            on: true,
        },
        ActionKind::AudioSpeaker {
            vm: "corp-vm".into(),
            on: true,
        },
        ActionKind::AudioOff {
            vm: "corp-vm".into(),
        },
    ];

    for action in actions {
        assert!(matches!(
            block_reason(&action, &state),
            Some(Unavailable::NotYetImplemented)
        ));
        assert!(matches!(
            plan(&action, &state, &Config::default()),
            Err(Unavailable::NotYetImplemented)
        ));
    }
}

#[test]
fn vm_actions_returns_lifecycle_usb_terminal_store_and_audio() {
    let mut target = vm("corp-vm", RuntimeState::Running);
    target.usb.push(UsbClaim {
        vm: "corp-vm".into(),
        env: "work".into(),
        bus_id: "1-2".into(),
        bound: false,
        owner_vm: None,
    });
    let state = connected_state(AuthRole::Admin, vec![target]);

    let actions = vm_actions(&state, &Config::default(), "corp-vm");

    assert_eq!(actions.len(), 14);
    assert!(matches!(&actions[0].action, ActionKind::Start { .. }));
    assert!(matches!(&actions[1].action, ActionKind::Stop { .. }));
    assert!(matches!(&actions[2].action, ActionKind::ForceStop { .. }));
    assert!(matches!(&actions[6].action, ActionKind::Build { .. }));
    assert!(matches!(&actions[7].action, ActionKind::Boot { .. }));
    assert!(matches!(&actions[8].action, ActionKind::Switch { .. }));
    assert!(matches!(&actions[9].action, ActionKind::UsbAttach { .. }));
    assert!(matches!(&actions[10].action, ActionKind::UsbDetach { .. }));
    assert!(matches!(&actions[11].action, ActionKind::AudioMic { .. }));
    assert!(matches!(
        actions[11].unavailable.as_ref(),
        Some(Unavailable::NotYetImplemented)
    ));
    assert!(matches!(
        &actions[12].action,
        ActionKind::AudioSpeaker { .. }
    ));
    assert!(matches!(
        actions[12].unavailable.as_ref(),
        Some(Unavailable::NotYetImplemented)
    ));
    assert!(matches!(&actions[13].action, ActionKind::AudioOff { .. }));
    assert!(matches!(
        actions[13].unavailable.as_ref(),
        Some(Unavailable::NotYetImplemented)
    ));
}

#[test]
fn vm_actions_blocks_terminal_when_config_is_invalid() {
    let state = connected_state(AuthRole::Admin, vec![vm("corp-vm", RuntimeState::Running)]);
    let config = Config {
        terminal: TerminalConfig {
            guest_shell: String::new(),
            guest_argv: vec![],
            ..Default::default()
        },
        ..Default::default()
    };

    let actions = vm_actions(&state, &config, "corp-vm");

    let terminal = actions
        .iter()
        .find(|entry| matches!(&entry.action, ActionKind::LaunchTerminal { .. }))
        .expect("terminal action");
    assert!(matches!(
        &terminal.unavailable,
        Some(Unavailable::Blocked { detail }) if detail.contains("terminal.guest_argv")
    ));
}

#[test]
fn build_and_boot_plan_to_process_and_socket() {
    let state = connected_state(AuthRole::Admin, vec![vm("corp-vm", RuntimeState::Running)]);

    let build = plan(
        &ActionKind::Build {
            vm: "corp-vm".into(),
        },
        &connected_state(
            AuthRole::Launcher,
            vec![vm("corp-vm", RuntimeState::Running)],
        ),
        &Config::default(),
    )
    .expect("build plannable");
    assert_eq!(
        build,
        PlannedAction::Process {
            argv: vec!["d2b".into(), "build".into(), "corp-vm".into()],
            wait: true,
        }
    );

    let boot = plan(
        &ActionKind::Boot {
            vm: "corp-vm".into(),
        },
        &state,
        &Config::default(),
    )
    .expect("boot plannable");
    assert_eq!(
        boot,
        PlannedAction::Socket {
            intent: SocketIntent::Boot {
                vm: "corp-vm".into()
            }
        }
    );
}

#[test]
fn stop_plans_graceful_by_default_and_force_sets_socket_flag() {
    let state = connected_state(AuthRole::Admin, vec![vm("corp-vm", RuntimeState::Running)]);

    let normal = plan(
        &ActionKind::Stop {
            vm: "corp-vm".into(),
        },
        &state,
        &Config::default(),
    )
    .expect("normal stop plannable");
    assert_eq!(
        normal,
        PlannedAction::Socket {
            intent: SocketIntent::VmStop {
                vm: "corp-vm".into(),
                force: false
            }
        }
    );

    let force = plan(
        &ActionKind::ForceStop {
            vm: "corp-vm".into(),
        },
        &state,
        &Config::default(),
    )
    .expect("force stop plannable");
    assert_eq!(
        force,
        PlannedAction::Socket {
            intent: SocketIntent::VmStop {
                vm: "corp-vm".into(),
                force: true
            }
        }
    );
}

#[test]
fn observability_plan_opens_configured_url_without_daemon_state() {
    let planned = plan(
        &ActionKind::OpenObservability,
        &WlState::default(),
        &Config::default(),
    )
    .expect("observability plannable");

    assert_eq!(
        planned,
        PlannedAction::Process {
            argv: vec!["xdg-open".into(), "http://sys-obs:8080".into()],
            wait: false,
        }
    );
}

#[test]
fn quick_launch_uses_configured_detached_guest_argv() {
    let state = connected_state(AuthRole::Admin, vec![vm("work-ssd", RuntimeState::Running)]);
    let config = Config {
        quick_launch: vec![QuickLaunchConfig {
            id: "run-openterface".into(),
            vm: "work-ssd".into(),
            icon: "desktop_windows".into(),
            tooltip: "Run Openterface".into(),
            guest_argv: vec!["/run/current-system/sw/bin/openterface-run".into()],
        }],
        ..Default::default()
    };

    let planned = plan(
        &ActionKind::QuickLaunch {
            vm: "work-ssd".into(),
            id: "run-openterface".into(),
        },
        &state,
        &config,
    )
    .expect("quick launch plannable");

    assert_eq!(
        planned,
        PlannedAction::Process {
            argv: vec![
                "d2b".into(),
                "vm".into(),
                "exec".into(),
                "-d".into(),
                "work-ssd".into(),
                "--".into(),
                "/run/current-system/sw/bin/openterface-run".into()
            ],
            wait: true,
        }
    );
}

#[test]
fn ownerless_devices_are_released_by_nobody() {
    let mut target = vm("corp-vm", RuntimeState::Running);
    target.usb.push(usb_claim("corp-vm", "1-2", true, None));
    let state = connected_state(AuthRole::Admin, vec![target]);
    let detach = ActionKind::UsbDetach {
        vm: "corp-vm".into(),
        bus_id: "1-2".into(),
    };
    assert_eq!(
        plan(&detach, &state, &Config::default()),
        Err(Unavailable::VmState {
            detail: "device has no known owner".into()
        })
    );
    let attach = ActionKind::UsbAttach {
        vm: "corp-vm".into(),
        bus_id: "1-2".into(),
    };
    assert!(plan(&attach, &state, &Config::default()).is_ok());
}
