use wlcontrol::model::{AuthRole, Connectivity, RuntimeState, Vm, VmFeatures, WlState};

#[test]
fn running_and_visible_counts_exclude_net_vms() {
    let state = WlState {
        connectivity: Connectivity::Connected,
        role: AuthRole::Admin,
        vms: vec![
            Vm {
                name: "corp-vm".into(),
                env: Some("work".into()),
                state: RuntimeState::Running,
                is_net_vm: false,
                hidden: false,
                pending_restart: false,
                features: VmFeatures::default(),
                static_ip: None,
                readiness: vec![],
                usb: vec![],
                ..Default::default()
            },
            Vm {
                name: "sys-work-net".into(),
                env: Some("work".into()),
                state: RuntimeState::Running,
                is_net_vm: true,
                hidden: false,
                pending_restart: false,
                features: VmFeatures::default(),
                static_ip: None,
                readiness: vec![],
                usb: vec![],
                ..Default::default()
            },
        ],
        stale: false,
        note: None,
    };
    assert_eq!(state.running_count(), 1);
    assert_eq!(state.visible_count(), 1);
    assert!(!state.needs_attention());
}

#[test]
fn attention_triggers_on_pending_restart() {
    let mut state = WlState {
        connectivity: Connectivity::Connected,
        ..Default::default()
    };
    state.vms.push(Vm {
        name: "corp-vm".into(),
        env: None,
        state: RuntimeState::Running,
        is_net_vm: false,
        hidden: false,
        pending_restart: true,
        features: VmFeatures::default(),
        static_ip: None,
        readiness: vec![],
        usb: vec![],
        ..Default::default()
    });
    assert!(state.needs_attention());
}

#[test]
fn counts_and_attention_exclude_hidden_vms() {
    let state = WlState {
        connectivity: Connectivity::Connected,
        role: AuthRole::Admin,
        vms: vec![Vm {
            name: "noisy-vm".into(),
            env: None,
            state: RuntimeState::Unknown,
            is_net_vm: false,
            hidden: true,
            pending_restart: true,
            features: VmFeatures::default(),
            static_ip: None,
            readiness: vec![],
            usb: vec![],
            ..Default::default()
        }],
        stale: false,
        note: None,
    };
    assert_eq!(state.running_count(), 0);
    assert_eq!(state.visible_count(), 0);
    assert!(!state.needs_attention());
}
