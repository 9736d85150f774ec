use serde_json::Value;
use wlcontrol::Config;
use wlcontrol::config::{
    UiColorArtifact, UiColorBorder, UiColorEnv, UiColorHost, UiColorStates, UiColorVm,
};
use wlcontrol::frontend::{RuntimeBase, popup_argv, popup_environment, runtime_base};

#[test]
fn popup_files_live_in_the_runtime_directory() {
    assert_eq!(runtime_base(true, true), RuntimeBase::XdgRuntimeDir);
    assert_eq!(runtime_base(false, true), RuntimeBase::TmpDir);
    assert_eq!(runtime_base(false, false), RuntimeBase::Tmp);
}

#[test]
fn popup_is_started_from_argv() {
    assert_eq!(
        popup_argv("/run/x y/shell.qml"),
        ["quickshell", "--path", "/run/x y/shell.qml", "--no-duplicate"]
    );
}

fn artifact() -> UiColorArtifact {
    let color = |value: &str| value.to_owned();
    UiColorArtifact {
        version: 1,
        host: UiColorHost {
            accent: color("#010203"),
        },
        states: UiColorStates {
            running: color("#a6e3a1"),
            transitioning: color("#f9e2af"),
            pending_restart: color("#fab387"),
            error: color("#f38ba8"),
            denied: color("#cba6f7"),
            unknown: color("#6c7086"),
        },
        envs: vec![
            (
                "a \"quoted\" env\n".to_owned(),
                UiColorEnv {
                    accent: color("#0000ff"),
                },
            ),
            (
                "work".to_owned(),
                UiColorEnv {
                    accent: color("#ffa500"),
                },
            ),
        ],
        vms: vec![(
            "work-aad".to_owned(),
            UiColorVm {
                env: None,
                border: UiColorBorder {
                    active: color("#ffa501"),
                    inactive: color("#ffa502"),
                    urgent: color("#ffa503"),
                },
            },
        )],
    }
}

#[test]
fn popup_is_told_the_palette() {
    let config = Config::default();
    let told = popup_environment(&config, None).ok().expect("environment");
    let theme: Value = serde_json::from_str(&told.theme_json).expect("theme");
    assert_eq!(theme["shell"]["background"], "#0f1117");
    assert_eq!(theme["shell"]["foreground_strong"], "#ffffff");
    assert_eq!(theme.as_object().map(|members| members.len()), Some(1));
    assert_eq!(told.observability_enabled, "1");
    assert_eq!(told.observability_success, "Opened observability portal");
    assert!(!told.theme_json.contains('\n'));
}

#[test]
fn popup_is_told_the_daemon_colors() {
    let mut config = Config::default();
    config.observability.url = None;
    let colors = artifact();
    assert!(colors.is_valid());
    let told = popup_environment(&config, Some(&colors))
        .ok()
        .expect("environment");
    let theme: Value = serde_json::from_str(&told.theme_json).expect("theme");
    assert_eq!(theme["version"], 1);
    assert_eq!(theme["host"]["accent"], "#010203");
    assert_eq!(theme["states"]["pendingRestart"], "#fab387");
    assert_eq!(theme["envs"]["work"]["accent"], "#ffa500");
    assert_eq!(theme["envs"]["a \"quoted\" env\n"]["accent"], "#0000ff");
    assert_eq!(theme["vms"]["work-aad"]["border"]["urgent"], "#ffa503");
    assert_eq!(theme["shell"]["background"], "#0f1117");
    assert_eq!(told.observability_enabled, "0");
    assert!(!told.theme_json.contains('\n'));
}
