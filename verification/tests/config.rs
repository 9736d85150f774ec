use wlcontrol::WlError;
use wlcontrol::config::{
    ColorArtifactRead, Config, DEFAULT_COLOR_ARTIFACT_PATH, ObservabilityConfig,
    PRIVILEGED_BROKER_SOCKET_MESSAGE, QuickLaunchConfig, TerminalConfig, ThemeConfig,
    UiColorArtifact, UiColorBorder, UiColorEnv, UiColorErrorKind, UiColorHost, UiColorStates,
    UiColorVm, color_error_line, is_lower_hex_color, is_public_socket_path, sanitize_log_detail,
    validate_ui_colors,
};

#[test]
fn default_config_is_sane() {
    let c = Config::default();
    assert_eq!(c.public_socket, "/run/d2b/public.sock");
    assert_eq!(c.color_artifact_path, DEFAULT_COLOR_ARTIFACT_PATH);
    assert!(c.hide_net_vms);
    assert!(c.favorites.is_empty());
    assert!(c.hidden_vms.is_empty());
    assert_eq!(c.terminal.guest_shell, "bash");
    assert_eq!(c.terminal.guest_argv, ["/run/current-system/sw/bin/foot"]);
    assert!(c.observability.enabled);
    assert_eq!(c.observability.url.as_deref(), Some("http://sys-obs:8080"));
    assert_eq!(c.observability.browser_argv, ["xdg-open"]);
    assert_eq!(
        c.observability.success_message,
        "Opened observability portal"
    );
    assert_eq!(c.theme.background, "#0f1117");
    assert_eq!(c.theme.foreground_strong, "#ffffff");
    assert!(c.quick_launch.is_empty());
}

#[test]
fn default_config_validates() {
    assert!(Config::default().validate().is_ok());
}

#[test]
fn rejects_malformed_theme_color() {
    let err = Config {
        theme: ThemeConfig {
            background: "#ABCDEF".to_owned(),
            ..Default::default()
        },
        ..Default::default()
    }
    .validate()
    .expect_err("theme colors should be normalized lowercase hex");
    assert!(matches!(err, WlError::Config(msg) if msg.contains("theme.background")));
}

#[test]
fn names_the_first_malformed_theme_color() {
    let err = Config {
        theme: ThemeConfig {
            muted: "#12345".to_owned(),
            slider_track: "red".to_owned(),
            ..Default::default()
        },
        ..Default::default()
    }
    .validate()
    .expect_err("malformed");
    assert_eq!(
        err,
        WlError::Config("theme.muted must be a normalized #rrggbb color".to_owned())
    );
}

#[test]
fn rejects_empty_color_artifact_path() {
    let err = Config {
        color_artifact_path: String::new(),
        ..Default::default()
    }
    .validate()
    .expect_err("empty color artifact path should fail validation");
    assert!(matches!(err, WlError::Config(msg) if msg.contains("color_artifact_path")));
}

#[test]
fn missing_color_artifact_uses_no_colors() {
    let config = Config {
        color_artifact_path: "/tmp/d2b-wlcontrol-missing-colors.json".to_owned(),
        ..Default::default()
    };
    let load = config.load_ui_colors(ColorArtifactRead::Missing);
    assert_eq!(load.colors, None);
    assert_eq!(
        load.log.as_deref(),
        Some(
            "event=ui_color_artifact_error reason=missing \
             path_basename=d2b-wlcontrol-missing-colors.json detail=artifact is missing"
        )
    );
}

#[test]
fn malformed_color_artifact_uses_no_colors() {
    let config = Config {
        color_artifact_path: "/etc/d2b/ui-colors.json".to_owned(),
        ..Default::default()
    };
    let complaint = wlcontrol::json::parse(b"{not json").err().expect("malformed");
    let load = config.load_ui_colors(ColorArtifactRead::Unusable(complaint));
    assert_eq!(load.colors, None);
    assert!(load.log.expect("log").contains("reason=malformed"));
}

fn artifact() -> UiColorArtifact {
    UiColorArtifact {
        version: 1,
        host: UiColorHost {
            accent: "#010203".to_owned(),
        },
        states: UiColorStates {
            running: "#a6e3a1".to_owned(),
            transitioning: "#f9e2af".to_owned(),
            pending_restart: "#fab387".to_owned(),
            error: "#f38ba8".to_owned(),
            denied: "#cba6f7".to_owned(),
            unknown: "#6c7086".to_owned(),
        },
        envs: vec![(
            "work".to_owned(),
            UiColorEnv {
                accent: "#ffa500".to_owned(),
            },
        )],
        vms: vec![(
            "work-aad".to_owned(),
            UiColorVm {
                env: Some("work".to_owned()),
                border: UiColorBorder {
                    active: "#ffa500".to_owned(),
                    inactive: "#ffa500".to_owned(),
                    urgent: "#ffa500".to_owned(),
                },
            },
        )],
    }
}

#[test]
fn valid_color_artifact_loads() {
    let load = Config::default().load_ui_colors(ColorArtifactRead::Parsed(artifact()));
    assert!(load.log.is_none());
    let colors = load.colors.expect("valid artifact should provide colors");
    assert_eq!(colors.host.accent, "#010203");
    assert_eq!(colors.envs[0].1.accent, "#ffa500");
    assert_eq!(colors.vms[0].1.border.active, "#ffa500");
}

#[test]
fn color_artifact_of_another_version_is_refused() {
    let mut colors = artifact();
    colors.version = 2;
    assert_eq!(
        validate_ui_colors(colors),
        Err((
            UiColorErrorKind::UnsupportedVersion,
            "unsupported UI color artifact version 2; expected 1".to_owned()
        ))
    );
}

#[test]
fn color_artifact_names_the_first_bad_color() {
    let mut colors = artifact();
    colors.vms[0].1.border.urgent = "orange".to_owned();
    assert_eq!(
        validate_ui_colors(colors),
        Err((
            UiColorErrorKind::Malformed,
            "UI color artifact field work-aad is not a normalized #rrggbb color".to_owned()
        ))
    );
    let mut colors = artifact();
    colors.states.pending_restart = "#FAB387".to_owned();
    colors.envs[0].1.accent = String::new();
    assert_eq!(
        validate_ui_colors(colors),
        Err((
            UiColorErrorKind::Malformed,
            "UI color artifact field states.pendingRestart is not a normalized #rrggbb color"
                .to_owned()
        ))
    );
}

#[test]
fn empty_terminal_guest_command_is_rejected() {
    let err = Config {
        terminal: TerminalConfig {
            guest_shell: String::new(),
            guest_argv: vec![],
            ..Default::default()
        },
        ..Default::default()
    }
    .validate()
    .expect_err("empty guest argv should fail validation");
    assert!(matches!(err, WlError::Config(msg) if msg.contains("terminal.guest_argv")));
}

#[test]
fn blank_guest_shell_counts_as_empty_only_without_argv() {
    let mut config = Config::default();
    config.terminal.guest_shell = " \t".to_owned();
    assert!(config.validate().is_ok());
    config.terminal.guest_argv.clear();
    assert!(config.validate().is_err());
    config.terminal.guest_shell = "fish".to_owned();
    assert!(config.validate().is_ok());
}

#[test]
fn disabled_observability_allows_empty_browser_argv() {
    let c = Config {
        observability: ObservabilityConfig {
            enabled: false,
            browser_argv: vec![],
            ..Default::default()
        },
        ..Default::default()
    };
    assert!(c.validate().is_ok());
    assert!(!c.observability.enabled);
}

#[test]
fn observability_browser_argv_is_required_when_url_is_set() {
    let err = Config {
        observability: ObservabilityConfig {
            url: Some("http://signoz.example".to_owned()),
            browser_argv: vec![],
            ..Default::default()
        },
        ..Default::default()
    }
    .validate()
    .expect_err("empty browser argv should fail validation");
    assert!(matches!(err, WlError::Config(msg) if msg.contains("observability.browser_argv")));
}

fn quick_launch() -> QuickLaunchConfig {
    QuickLaunchConfig {
        id: "broken".to_owned(),
        vm: "work-ssd".to_owned(),
        icon: "desktop_windows".to_owned(),
        tooltip: "Broken".to_owned(),
        guest_argv: vec!["/bin/true".to_owned()],
    }
}

#[test]
fn rejects_incomplete_quick_launch_items() {
    let err = Config {
        quick_launch: vec![QuickLaunchConfig {
            guest_argv: vec![],
            ..quick_launch()
        }],
        ..Default::default()
    }
    .validate()
    .expect_err("quick launch without argv should fail");
    assert!(matches!(err, WlError::Config(msg) if msg.contains("quick_launch.guest_argv")));
}

#[test]
fn every_quick_launch_field_is_needed() {
    let cases = [
        (
            QuickLaunchConfig {
                id: " ".to_owned(),
                ..quick_launch()
            },
            "quick_launch.id must not be empty",
        ),
        (
            QuickLaunchConfig {
                vm: String::new(),
                ..quick_launch()
            },
            "quick_launch.vm must not be empty",
        ),
        (
            QuickLaunchConfig {
                icon: String::new(),
                ..quick_launch()
            },
            "quick_launch.icon must not be empty",
        ),
        (
            QuickLaunchConfig {
                tooltip: "\n".to_owned(),
                ..quick_launch()
            },
            "quick_launch.tooltip must not be empty",
        ),
    ];
    for (item, message) in cases {
        let err = Config {
            quick_launch: vec![quick_launch(), item],
            ..Default::default()
        }
        .validate()
        .expect_err("incomplete");
        assert_eq!(err, WlError::Config(message.to_owned()));
    }
}

#[test]
fn rejects_privileged_broker_socket_paths() {
    for public_socket in [
        "/run/d2b/priv.sock",
        "/run/other/priv.sock",
        "priv.sock",
        "  /run/d2b/priv.sock  ",
    ] {
        assert!(!is_public_socket_path(public_socket));
        let err = Config {
            public_socket: public_socket.to_owned(),
            ..Default::default()
        }
        .validate()
        .expect_err("privileged broker socket path should fail");
        assert!(matches!(
            err,
            WlError::Config(msg) if msg == PRIVILEGED_BROKER_SOCKET_MESSAGE
        ));
    }
}

#[test]
fn broker_socket_is_found_behind_odd_spellings() {
    for path in [
        "/run/d2b/priv.sock/",
        "/run/d2b//priv.sock/.",
        "./priv.sock",
        "\u{3000}priv.sock\u{a0}",
    ] {
        assert!(!is_public_socket_path(path), "{path:?}");
    }
    for path in ["/run/d2b/priv.sock.d/public.sock", "..", "/", "a/..", "xpriv.sock"] {
        assert!(is_public_socket_path(path), "{path:?}");
        let name = std::path::Path::new(path).file_name();
        assert_ne!(name.and_then(|n| n.to_str()), Some("priv.sock"));
    }
}

#[test]
fn rejects_empty_public_socket() {
    let err = Config {
        public_socket: String::new(),
        ..Default::default()
    }
    .validate()
    .expect_err("empty public socket should fail");
    assert!(matches!(
        err,
        WlError::Config(msg) if msg.contains("public_socket")
    ));
    assert!(!is_public_socket_path(""));
}

#[test]
fn accepts_public_socket_path() {
    assert!(is_public_socket_path("/run/d2b/public.sock"));
    Config {
        public_socket: "/run/d2b/public.sock".to_owned(),
        ..Default::default()
    }
    .validate()
    .expect("public socket path should validate");
}

#[test]
fn hex_colors_are_seven_lower_case_characters() {
    assert!(is_lower_hex_color("#09afaf"));
    for value in ["", "#", "09afaf0", "#09afag", "#09AFAF", "#09afaf0", "#09afé"] {
        assert!(!is_lower_hex_color(value), "{value:?}");
    }
}

#[test]
fn log_details_are_one_short_line() {
    assert_eq!(sanitize_log_detail("a\nb\u{7f}c\u{9f}d"), "abcd");
    let long = "x".repeat(200);
    assert_eq!(sanitize_log_detail(&long), "x".repeat(160));
    assert_eq!(
        color_error_line(UiColorErrorKind::Malformed, "/", "bad\tdata"),
        "event=ui_color_artifact_error reason=malformed path_basename=unknown detail=baddata"
    );
    assert!(
        color_error_line(UiColorErrorKind::UnsupportedVersion, "a/b.json", "")
            .contains("reason=unsupported_version path_basename=b.json ")
    );
}

#[test]
fn errors_describe_themselves() {
    let cases = [
        (WlError::Config("x".to_owned()), "configuration error: x"),
        (WlError::DaemonDown("x".to_owned()), "daemon unreachable: x"),
        (WlError::Denied("x".to_owned()), "access denied: x"),
        (WlError::Protocol("x".to_owned()), "protocol error: x"),
        (WlError::Timeout("x".to_owned()), "timed out: x"),
        (WlError::Nixling("x".to_owned()), "x"),
        (WlError::D2b("x".to_owned()), "x"),
        (WlError::Io("x".to_owned()), "i/o error: x"),
    ];
    for (error, text) in cases {
        assert_eq!(error.to_text(), text);
        assert_eq!(error.clone(), error);
    }
}

#[test]
fn valid_artifacts_list_each_name_once_in_order() {
    let env = |name: &str| {
        (
            name.to_owned(),
            UiColorEnv {
                accent: "#010203".to_owned(),
            },
        )
    };
    for (names, valid) in [
        (vec![], true),
        (vec!["b"], true),
        (vec!["", "a", "ab", "b", "é"], true),
        (vec!["b", "a"], false),
        (vec!["a", "a"], false),
        (vec!["ab", "a"], false),
    ] {
        let mut colors = artifact();
        colors.envs = names.iter().map(|name| env(name)).collect();
        let mut sorted = names.clone();
        sorted.sort();
        sorted.dedup();
        assert_eq!(sorted == names, valid);
        assert_eq!(colors.is_valid(), valid, "{names:?}");
        let kept = validate_ui_colors(colors).expect("colors");
        assert_eq!(kept.is_valid(), valid);
    }
}
