use wlcontrol::model::{AuthRole, Connectivity, RuntimeState, Vm, VmFeatures, WlState};
use wlcontrol::waybar::{DisplayMode, render, render_mode};

fn vm(name: &str, state: RuntimeState, net: bool) -> Vm {
    Vm {
        name: name.into(),
        env: Some("work".into()),
        state,
        is_net_vm: net,
        hidden: false,
        pending_restart: false,
        features: VmFeatures::default(),
        static_ip: None,
        readiness: vec![],
        usb: vec![],
        ..Default::default()
    }
}

#[test]
fn daemon_down_line() {
    let state = WlState {
        connectivity: Connectivity::DaemonDown,
        ..Default::default()
    };
    let line = render(&state);
    assert!(line.class.contains(&"daemon-down".to_owned()));
    assert!(line.to_json_line().ends_with("\n"));
}

#[test]
fn partial_running_excludes_net_vm() {
    let state = WlState {
        connectivity: Connectivity::Connected,
        role: AuthRole::Admin,
        vms: vec![
            vm("a", RuntimeState::Running, false),
            vm("b", RuntimeState::Stopped, false),
            vm("sys-work-net", RuntimeState::Running, true),
        ],
        stale: false,
        note: None,
    };
    let line = render(&state);
    assert_eq!(line.text, "◆ 1/2");
    assert!(line.class.contains(&"partial-running".to_owned()));
}

#[test]
fn json_line_is_single_line() {
    let line = render(&WlState::default());
    let json = line.to_json_line();
    assert_eq!(json.matches('\n').count(), 1);
    assert!(json.ends_with('\n'));
}

#[test]
fn either_display_mode_shows_the_compact_text() {
    let state = WlState {
        connectivity: Connectivity::Connected,
        role: AuthRole::Admin,
        vms: vec![
            vm("a", RuntimeState::Running, false),
            vm("b", RuntimeState::Stopped, false),
        ],
        ..Default::default()
    };
    for mode in [DisplayMode::Compact, DisplayMode::Detail] {
        let line = render_mode(&state, mode);
        assert_eq!(line.text, "◆ 1/2");
        assert_eq!(line, render(&state));
    }
}
