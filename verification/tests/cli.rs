use wlcontrol::cli::{
    ActionCommand, ActionRoute, AudioToggle, STYLE_SNIPPET, StateRoot, WAYBAR_CONFIG_SNIPPET,
    action_planning_state, daemon_down_backoff, describe_unavailable, display_mode_contents,
    display_mode_name, exit_code, next_pause, parse_display_mode, prepare_process,
    refresh_interval, route_action, state_root, stored_display_mode, toggle_display_mode,
    waybar_config_output,
};
use wlcontrol::config::Config;
use wlcontrol::model::{
    ActionKind, AuthRole, Connectivity, PlannedAction, SocketIntent, Unavailable, WlState,
};
use wlcontrol::plan::plan;
use wlcontrol::waybar::DisplayMode;
use wlcontrol::WlError;

#[test]
fn parses_display_mode_file_contents() {
    assert_eq!(parse_display_mode("detail\n"), DisplayMode::Detail);
    assert_eq!(parse_display_mode("\"detail\""), DisplayMode::Detail);
    assert_eq!(parse_display_mode("compact\n"), DisplayMode::Compact);
    assert_eq!(parse_display_mode("unexpected"), DisplayMode::Compact);
}

#[test]
fn display_mode_ignores_case_and_nested_quotes() {
    assert_eq!(parse_display_mode(" \"\"DeTaIl\"\n"), DisplayMode::Detail);
    assert_eq!(parse_display_mode("\"detail \""), DisplayMode::Compact);
    assert_eq!(parse_display_mode(""), DisplayMode::Compact);
}

#[test]
fn toggles_display_mode_names() {
    assert_eq!(
        toggle_display_mode(DisplayMode::Compact),
        DisplayMode::Detail
    );
    assert_eq!(
        toggle_display_mode(DisplayMode::Detail),
        DisplayMode::Compact
    );
    assert_eq!(display_mode_name(DisplayMode::Detail), "detail");
}

#[test]
fn missing_display_mode_file_defaults_to_compact() {
    assert_eq!(stored_display_mode(None), DisplayMode::Compact);
}

#[test]
fn stored_display_mode_round_trips() {
    for mode in [DisplayMode::Compact, DisplayMode::Detail] {
        let contents = display_mode_contents(mode);
        assert_eq!(contents, format!("{}\n", display_mode_name(mode)));
        assert_eq!(stored_display_mode(Some(&contents)), mode);
        let next = toggle_display_mode(mode);
        assert_ne!(next, mode);
        assert_eq!(toggle_display_mode(next), mode);
    }
}

#[test]
fn daemon_down_backoff_caps_at_thirty_seconds() {
    let base = 1_000;
    assert_eq!(daemon_down_backoff(base, 0), 1_000);
    assert_eq!(daemon_down_backoff(base, 2), 4_000);
    assert_eq!(daemon_down_backoff(base, 20), 30_000);
}

#[test]
fn backoff_stays_in_bounds() {
    assert_eq!(daemon_down_backoff(0, 0), 250);
    assert_eq!(daemon_down_backoff(10, 3), 2_000);
    assert_eq!(daemon_down_backoff(u64::MAX, 10), 30_000);
    assert_eq!(daemon_down_backoff(29_999, 0), 29_999);
    let mut last = 0;
    for cycles in 0..40 {
        let pause = daemon_down_backoff(300, cycles);
        assert!(pause >= last && pause <= 30_000);
        last = pause;
    }
}

#[test]
fn loop_backs_off_only_while_the_daemon_is_down() {
    assert_eq!(next_pause(Connectivity::Connected, 2_500, 7), (2_500, 0));
    assert_eq!(next_pause(Connectivity::AuthDenied, 2_500, 7), (2_500, 0));
    assert_eq!(next_pause(Connectivity::DaemonDown, 2_500, 1), (5_000, 2));
    assert_eq!(
        next_pause(Connectivity::DaemonDown, 2_500, u32::MAX),
        (30_000, u32::MAX)
    );
    assert_eq!(refresh_interval(&Config::default()), 2_500);
    assert_eq!(
        refresh_interval(&Config {
            refresh_interval_ms: 10,
            ..Default::default()
        }),
        250
    );
}

#[test]
fn generated_waybar_config_documents_signal_offset() {
    let output = waybar_config_output();
    assert!(output.contains("\"signal\": 8"));
    assert!(output.contains("SIGRTMIN+8"));
    assert!(output.contains(WAYBAR_CONFIG_SNIPPET));
}

#[test]
fn style_snippet_covers_the_classes() {
    for class in [
        "all-stopped",
        "partial-running",
        "all-running",
        "attention",
        "daemon-down",
        "auth-denied",
    ] {
        assert!(STYLE_SNIPPET.contains(class));
    }
}

#[test]
fn commands_map_to_actions() {
    let vm = || "corp-vm".to_owned();
    let cases = [
        (ActionCommand::Refresh, ActionKind::Refresh),
        (ActionCommand::CycleDisplay, ActionKind::CycleDisplay),
        (ActionCommand::Open, ActionKind::OpenControlCenter),
        (
            ActionCommand::Start { vm: vm() },
            ActionKind::Start { vm: vm() },
        ),
        (
            ActionCommand::Terminal { vm: vm() },
            ActionKind::LaunchTerminal { vm: vm() },
        ),
        (
            ActionCommand::UsbAttach {
                vm: vm(),
                bus_id: "1-2".to_owned(),
            },
            ActionKind::UsbAttach {
                vm: vm(),
                bus_id: "1-2".to_owned(),
            },
        ),
        (
            ActionCommand::AudioMic {
                vm: vm(),
                state: AudioToggle::On,
            },
            ActionKind::AudioMic { vm: vm(), on: true },
        ),
        (
            ActionCommand::AudioSpeaker {
                vm: vm(),
                state: AudioToggle::Off,
            },
            ActionKind::AudioSpeaker {
                vm: vm(),
                on: false,
            },
        ),
        (
            ActionCommand::AudioSpeakerVolume {
                vm: vm(),
                level_percent: 42,
            },
            ActionKind::AudioSpeakerVolume {
                vm: vm(),
                level_percent: 42,
            },
        ),
        (ActionCommand::Observability, ActionKind::OpenObservability),
    ];
    for (command, kind) in cases {
        assert_eq!(command.into_kind(), kind);
    }
}

#[test]
fn display_actions_plan_without_the_daemon() {
    for action in [
        ActionKind::Refresh,
        ActionKind::OpenControlCenter,
        ActionKind::OpenObservability,
        ActionKind::CycleDisplay,
    ] {
        assert_eq!(action_planning_state(&action), Some(WlState::default()));
    }
    assert_eq!(
        action_planning_state(&ActionKind::Start {
            vm: "corp-vm".to_owned()
        }),
        None
    );
}

fn route(action: &ActionKind) -> ActionRoute {
    let state = WlState::default();
    route_action(action, plan(action, &state, &Config::default()))
}

#[test]
fn actions_take_their_route() {
    assert!(matches!(
        route(&ActionKind::OpenControlCenter),
        ActionRoute::OpenControlCenter
    ));
    assert!(matches!(
        route(&ActionKind::CycleDisplay),
        ActionRoute::CycleDisplay
    ));
    assert!(matches!(
        route(&ActionKind::Refresh),
        ActionRoute::Dispatch {
            intent: SocketIntent::List,
            signal_waybar: true
        }
    ));
    assert!(matches!(
        route(&ActionKind::OpenObservability),
        ActionRoute::Run { argv, wait: false } if argv == ["xdg-open", "http://sys-obs:8080"]
    ));
    assert!(matches!(
        route(&ActionKind::Boot { vm: "a".to_owned() }),
        ActionRoute::Explain { text }
            if text == "d2b-wlcontrol: action unavailable: d2bd is unreachable"
    ));
    let dispatch = route_action(
        &ActionKind::Boot { vm: "a".to_owned() },
        Ok(PlannedAction::Socket {
            intent: SocketIntent::Boot { vm: "a".to_owned() },
        }),
    );
    assert!(matches!(
        dispatch,
        ActionRoute::Dispatch {
            signal_waybar: false,
            ..
        }
    ));
}

#[test]
fn unavailability_is_described() {
    let cases = [
        (Unavailable::DaemonDown, "d2bd is unreachable"),
        (
            Unavailable::InsufficientRole {
                required: AuthRole::Admin,
            },
            "requires admin role",
        ),
        (
            Unavailable::InsufficientRole {
                required: AuthRole::Launcher,
            },
            "requires launcher role",
        ),
        (
            Unavailable::VmState {
                detail: "VM is not running".to_owned(),
            },
            "VM is not running",
        ),
        (
            Unavailable::UsbOwnedElsewhere {
                owner: "dev-vm".to_owned(),
            },
            "USB device is owned by dev-vm",
        ),
        (Unavailable::NotYetImplemented, "not yet implemented"),
        (
            Unavailable::Blocked {
                detail: "because".to_owned(),
            },
            "because",
        ),
    ];
    for (reason, text) in cases {
        assert_eq!(describe_unavailable(&reason), text);
    }
}

#[test]
fn processes_start_from_argv() {
    let config = Config::default();
    assert!(matches!(
        prepare_process(vec![], &config),
        Err(WlError::Config(text)) if text == "empty process argv"
    ));
    let launch = prepare_process(
        vec!["/run/current-system/sw/bin/d2b".to_owned(), "a b".to_owned()],
        &config,
    )
    .ok()
    .expect("launch");
    assert_eq!(launch.program, "/run/current-system/sw/bin/d2b");
    assert_eq!(launch.args, ["a b"]);
    assert_eq!(
        launch.public_socket.as_deref(),
        Some("/run/d2b/public.sock")
    );
    let launch = prepare_process(vec!["xdg-open".to_owned()], &config)
        .ok()
        .expect("launch");
    assert!(launch.args.is_empty());
    assert_eq!(launch.public_socket, None);
}

#[test]
fn exit_codes_pass_on_when_they_fit() {
    assert_eq!(exit_code(Some(0)), 0);
    assert_eq!(exit_code(Some(255)), 255);
    assert_eq!(exit_code(Some(256)), 1);
    assert_eq!(exit_code(Some(-1)), 1);
    assert_eq!(exit_code(None), 1);
}

#[test]
fn state_lives_under_xdg_or_home() {
    assert_eq!(state_root(true, true), Ok(StateRoot::XdgStateHome));
    assert_eq!(state_root(true, false), Ok(StateRoot::XdgStateHome));
    assert_eq!(state_root(false, true), Ok(StateRoot::HomeLocalState));
    assert!(matches!(
        state_root(false, false),
        Err(WlError::Config(text)) if text.contains("HOME or XDG_STATE_HOME")
    ));
}
