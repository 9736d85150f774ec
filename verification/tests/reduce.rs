use wlcontrol::config::{Config, QuickLaunchConfig};
use wlcontrol::model::{AuthRole, Connectivity, RuntimeState};
use wlcontrol::reduce::{is_framework_net_vm_name, reduce, reduce_with_config};
use wlcontrol::sources::{Auth, Inventory, InventoryVm, ReduceInput, UsbProbe, VmStatus};

fn inventory_vm(name: &str, coarse_status: Option<&str>) -> InventoryVm {
    InventoryVm {
        name: name.into(),
        env: Some("work".into()),
        is_net_vm: false,
        features: Default::default(),
        capabilities: Default::default(),
        static_ip: None,
        coarse_status: coarse_status.map(String::from),
    }
}

#[test]
fn daemon_down_yields_empty_state() {
    let input = ReduceInput {
        connectivity: Connectivity::DaemonDown,
        ..Default::default()
    };
    let state = reduce(input);
    assert_eq!(state.connectivity, Connectivity::DaemonDown);
    assert!(state.vms.is_empty());
    assert_eq!(state.role, AuthRole::NoRole);
}

#[test]
fn per_vm_status_overrides_coarse() {
    let input = ReduceInput {
        connectivity: Connectivity::Connected,
        auth: Some(Auth {
            role: AuthRole::Admin,
        }),
        inventory: Some(Inventory {
            vms: vec![inventory_vm("corp-vm", Some("running"))],
        }),
        statuses: vec![VmStatus {
            name: "corp-vm".into(),
            state: RuntimeState::Running,
            pending_restart: true,
            readiness: vec!["api-ready".into()],
            capabilities: Default::default(),
        }],
        usb: Some(UsbProbe::default()),
        audio: None,
    };
    let state = reduce(input);
    assert_eq!(state.vms.len(), 1);
    assert_eq!(state.vms[0].state, RuntimeState::Running);
    assert!(state.vms[0].pending_restart);
    assert_eq!(state.role, AuthRole::Admin);
}

#[test]
fn no_role_maps_to_auth_denied() {
    let input = ReduceInput {
        connectivity: Connectivity::Connected,
        auth: Some(Auth {
            role: AuthRole::NoRole,
        }),
        inventory: Some(Inventory::default()),
        ..Default::default()
    };
    let state = reduce(input);
    assert_eq!(state.connectivity, Connectivity::AuthDenied);
}

#[test]
fn sys_dash_env_dash_net_name_is_net_vm_fallback() {
    assert!(is_framework_net_vm_name("sys-work-net"));
    assert!(!is_framework_net_vm_name("sys-net"));
    assert!(!is_framework_net_vm_name("sys--net"));
    assert!(!is_framework_net_vm_name("corp-vm"));

    let input = ReduceInput {
        connectivity: Connectivity::Connected,
        auth: Some(Auth {
            role: AuthRole::Admin,
        }),
        inventory: Some(Inventory {
            vms: vec![inventory_vm("sys-work-net", Some("stopped"))],
        }),
        ..Default::default()
    };
    let state = reduce(input);
    assert!(state.vms[0].is_net_vm);
}

#[test]
fn favorites_reorder_and_hidden_vms_are_marked() {
    let input = ReduceInput {
        connectivity: Connectivity::Connected,
        auth: Some(Auth {
            role: AuthRole::Admin,
        }),
        inventory: Some(Inventory {
            vms: vec![
                inventory_vm("alpha", Some("stopped")),
                inventory_vm("bravo", Some("stopped")),
                inventory_vm("charlie", Some("stopped")),
            ],
        }),
        ..Default::default()
    };
    let config = Config {
        favorites: vec!["charlie".into(), "missing".into(), "alpha".into()],
        hidden_vms: vec!["bravo".into()],
        ..Default::default()
    };

    let state = reduce_with_config(input, &config);

    assert_eq!(
        state
            .vms
            .iter()
            .map(|vm| vm.name.as_str())
            .collect::<Vec<_>>(),
        ["charlie", "alpha", "bravo"]
    );
    assert!(!state.vms[0].hidden);
    assert!(!state.vms[1].hidden);
    assert!(state.vms[2].hidden);
}

#[test]
fn sys_vms_sort_after_ordinary_vms_even_when_favorited() {
    let input = ReduceInput {
        connectivity: Connectivity::Connected,
        auth: Some(Auth {
            role: AuthRole::Admin,
        }),
        inventory: Some(Inventory {
            vms: vec![
                inventory_vm("sys-work-helper", Some("stopped")),
                inventory_vm("work-a", Some("stopped")),
                inventory_vm("sys-work-net", Some("stopped")),
                inventory_vm("work-b", Some("stopped")),
            ],
        }),
        ..Default::default()
    };
    let config = Config {
        favorites: vec!["sys-work-net".into(), "work-b".into()],
        ..Default::default()
    };

    let state = reduce_with_config(input, &config);

    assert_eq!(
        state
            .vms
            .iter()
            .map(|vm| vm.name.as_str())
            .collect::<Vec<_>>(),
        ["work-b", "work-a", "sys-work-net", "sys-work-helper"]
    );
}

#[test]
fn missing_status_for_running_inventory_becomes_unknown_attention() {
    let input = ReduceInput {
        connectivity: Connectivity::Connected,
        auth: Some(Auth {
            role: AuthRole::Admin,
        }),
        inventory: Some(Inventory {
            vms: vec![inventory_vm("corp-vm", Some("running"))],
        }),
        ..Default::default()
    };
    let state = reduce(input);
    assert_eq!(state.vms[0].state, RuntimeState::Unknown);
    assert!(state.needs_attention());
}

#[test]
fn conflicting_inventory_and_status_becomes_unknown_attention() {
    let input = ReduceInput {
        connectivity: Connectivity::Connected,
        auth: Some(Auth {
            role: AuthRole::Admin,
        }),
        inventory: Some(Inventory {
            vms: vec![inventory_vm("corp-vm", Some("stopped"))],
        }),
        statuses: vec![VmStatus {
            name: "corp-vm".into(),
            state: RuntimeState::Running,
            pending_restart: false,
            readiness: vec![],
            capabilities: Default::default(),
        }],
        ..Default::default()
    };
    let state = reduce(input);
    assert_eq!(state.vms[0].state, RuntimeState::Unknown);
    assert!(state.needs_attention());
}

#[test]
fn pending_restart_can_be_hidden_by_config() {
    let input = ReduceInput {
        connectivity: Connectivity::Connected,
        auth: Some(Auth {
            role: AuthRole::Admin,
        }),
        inventory: Some(Inventory {
            vms: vec![inventory_vm("corp-vm", Some("running"))],
        }),
        statuses: vec![VmStatus {
            name: "corp-vm".into(),
            state: RuntimeState::Running,
            pending_restart: true,
            readiness: vec![],
            capabilities: Default::default(),
        }],
        ..Default::default()
    };
    let config = Config {
        show_pending_restart: false,
        ..Default::default()
    };
    let state = reduce_with_config(input, &config);
    assert!(!state.vms[0].pending_restart);
}

#[test]
fn quick_launch_icons_are_attached_to_target_vm() {
    let input = ReduceInput {
        connectivity: Connectivity::Connected,
        auth: Some(Auth {
            role: AuthRole::Admin,
        }),
        inventory: Some(Inventory {
            vms: vec![
                inventory_vm("work-ssd", Some("running")),
                inventory_vm("other", Some("running")),
            ],
        }),
        ..Default::default()
    };
    let config = Config {
        quick_launch: vec![QuickLaunchConfig {
            id: "run-openterface".into(),
            vm: "work-ssd".into(),
            icon: "desktop_windows".into(),
            tooltip: "Run Openterface".into(),
            guest_argv: vec!["/run/current-system/sw/bin/openterface-run".into()],
        }],
        ..Default::default()
    };

    let state = reduce_with_config(input, &config);

    assert_eq!(state.vms[0].quick_launch.len(), 1);
    assert_eq!(state.vms[0].quick_launch[0].id, "run-openterface");
    assert!(state.vms[1].quick_launch.is_empty());
}
