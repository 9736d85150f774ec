use wlcontrol::model::{
    ActionKind, AuthRole, Connectivity, RuntimeState, Unavailable, UsbClaim, Vm, VmFeatures,
    WlState,
};
use wlcontrol::view_model::{
    needs_confirmation, state_badge, unavailable_tooltip, visible_vm_groups, vm_subtitle,
};

fn vm(name: &str, env: Option<&str>, state: RuntimeState) -> Vm {
    Vm {
        name: name.to_owned(),
        env: env.map(str::to_owned),
        state,
        is_net_vm: false,
        hidden: false,
        pending_restart: false,
        features: VmFeatures::default(),
        static_ip: None,
        readiness: vec![],
        usb: vec![],
        ..Default::default()
    }
}

#[test]
fn groups_visible_vms_by_env_and_hides_internal_by_default() {
    let mut hidden = vm("hidden", Some("work"), RuntimeState::Stopped);
    hidden.hidden = true;
    let mut net = vm("sys-work-net", Some("work"), RuntimeState::Running);
    net.is_net_vm = true;
    let state = WlState {
        connectivity: Connectivity::Connected,
        role: AuthRole::Admin,
        vms: vec![
            vm("work-a", Some("work"), RuntimeState::Running),
            vm("personal-a", Some("personal"), RuntimeState::Stopped),
            hidden,
            net,
        ],
        stale: false,
        note: None,
    };

    let groups = visible_vm_groups(&state, false);
    assert_eq!(groups.len(), 2);
    assert_eq!(groups[0].env, "work");
    assert_eq!(groups[0].vms.len(), 1);
    assert_eq!(groups[1].env, "personal");

    let groups = visible_vm_groups(&state, true);
    assert_eq!(groups[0].vms.len(), 3);
}

#[test]
fn maps_unavailable_to_human_tooltips() {
    assert_eq!(
        unavailable_tooltip(&Unavailable::InsufficientRole {
            required: AuthRole::Admin
        }),
        "requires admin"
    );
    assert_eq!(
        unavailable_tooltip(&Unavailable::UsbOwnedElsewhere {
            owner: "corp-vm".to_owned()
        }),
        "USB owned by corp-vm"
    );
    assert_eq!(
        unavailable_tooltip(&Unavailable::NotYetImplemented),
        "unsupported by the current nixling audio control plane"
    );
}

#[test]
fn badge_labels_cover_runtime_states() {
    assert_eq!(state_badge(RuntimeState::Running).label, "Running");
    assert_eq!(
        state_badge(RuntimeState::Stopped).css_class,
        "state-stopped"
    );
    assert_eq!(state_badge(RuntimeState::Starting).label, "Starting");
    assert_eq!(state_badge(RuntimeState::Stopping).label, "Stopping");
    assert_eq!(
        state_badge(RuntimeState::Unknown).css_class,
        "state-unknown"
    );
}

#[test]
fn only_destructive_running_vm_actions_need_confirmation() {
    let running = vm("corp-vm", Some("work"), RuntimeState::Running);
    let stopped = vm("corp-vm", Some("work"), RuntimeState::Stopped);

    assert!(needs_confirmation(
        &ActionKind::Stop {
            vm: "corp-vm".to_owned()
        },
        &running
    ));
    assert!(needs_confirmation(
        &ActionKind::Switch {
            vm: "corp-vm".to_owned()
        },
        &running
    ));
    assert!(!needs_confirmation(
        &ActionKind::Stop {
            vm: "corp-vm".to_owned()
        },
        &stopped
    ));
    assert!(!needs_confirmation(
        &ActionKind::Start {
            vm: "corp-vm".to_owned()
        },
        &running
    ));
}

#[test]
fn vm_subtitle_includes_ip_readiness_usb_and_pending_restart() {
    let mut target = vm("corp-vm", Some("work"), RuntimeState::Running);
    target.static_ip = Some("10.42.0.12".to_owned());
    target.readiness = vec!["api-ready".to_owned()];
    target.pending_restart = true;
    target.usb.push(UsbClaim {
        vm: "corp-vm".to_owned(),
        env: "work".to_owned(),
        bus_id: "1-2".to_owned(),
        bound: true,
        owner_vm: Some("corp-vm".to_owned()),
    });

    let subtitle = vm_subtitle(&target, true);
    assert!(subtitle.contains("10.42.0.12"));
    assert!(subtitle.contains("api-ready"));
    assert!(subtitle.contains("USB 1-2 bound to corp-vm"));
    assert!(subtitle.contains("pending restart"));
}
