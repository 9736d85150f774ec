use wlcontrol::process::{
    FrontendStatus, PopupStep, ProcessIdentity, WaybarPidRecord, args_match_quickshell,
    cmdline_matches_quickshell, cmdline_matches_waybar, frontend_status, is_d2b_program,
    parse_proc_start_time, popup_step, process_matches_waybar, split_arguments,
};

#[test]
fn pidfile_matching_requires_waybar_subcommand() {
    assert!(cmdline_matches_waybar(
        b"/nix/store/bin/d2b-wlcontrol\0waybar\0"
    ));
    assert!(!cmdline_matches_waybar(
        b"/nix/store/bin/d2b-wlcontrol\0open\0"
    ));
    assert!(!cmdline_matches_waybar(
        b"/nix/store/bin/d2b-wlcontrol\0action\0stop\0waybar\0"
    ));
    assert!(!cmdline_matches_waybar(
        b"/nix/store/bin/not-d2b-wlcontrol\0waybar\0"
    ));
    assert!(!cmdline_matches_waybar(b"/bin/other\0waybar\0"));
}

#[test]
fn empty_command_lines_match_nothing() {
    assert!(!cmdline_matches_waybar(b""));
    assert!(!cmdline_matches_waybar(b"\0\0"));
    assert!(!cmdline_matches_waybar(b"d2b-wlcontrol"));
    assert!(cmdline_matches_waybar(b"\0d2b-wlcontrol\0\0waybar"));
    assert_eq!(
        split_arguments(b"\0a\0\0bc\0"),
        vec![b"a".to_vec(), b"bc".to_vec()]
    );
}

#[test]
fn pidfile_record_round_trips_pid_and_start_time() {
    let record = WaybarPidRecord {
        pid: 42,
        start_time: 99,
    };
    assert_eq!(WaybarPidRecord::parse(&record.serialize()), Some(record));
    assert_eq!(WaybarPidRecord::parse("42\n"), None);
    assert_eq!(WaybarPidRecord::parse("42 99 extra\n"), None);
}

#[test]
fn pid_records_hold_numbers_in_range() {
    let record = WaybarPidRecord {
        pid: u32::MAX,
        start_time: u64::MAX,
    };
    assert_eq!(record.serialize(), "4294967295 18446744073709551615\n");
    assert_eq!(WaybarPidRecord::parse(&record.serialize()), Some(record));
    assert_eq!(WaybarPidRecord::parse("4294967296 1"), None);
    assert_eq!(WaybarPidRecord::parse("1 18446744073709551616"), None);
    assert_eq!(WaybarPidRecord::parse("-1 1"), None);
    assert_eq!(WaybarPidRecord::parse("a 1"), None);
    assert_eq!(
        WaybarPidRecord::parse("+7\t 08"),
        Some(WaybarPidRecord {
            pid: 7,
            start_time: 8
        })
    );
}

#[test]
fn identities_ignore_what_follows() {
    let identity = ProcessIdentity {
        pid: 1,
        start_time_ticks: 0,
    };
    assert_eq!(identity.serialize(), "1 0\n");
    assert_eq!(ProcessIdentity::parse(&identity.serialize()), Some(identity));
    assert_eq!(ProcessIdentity::parse("1 0 more"), Some(identity));
    assert_eq!(ProcessIdentity::parse("1"), None);
}

#[test]
fn parses_proc_stat_start_time_after_process_name() {
    let stat = "123 (name with ) paren) S 1 2 3 4 5 6 7 8 9 10 11 12 13 14 15 16 17 18 4242 23 24";
    assert_eq!(parse_proc_start_time(stat), Some(4242));
}

#[test]
fn short_stat_lines_have_no_start_time() {
    assert_eq!(parse_proc_start_time(""), None);
    assert_eq!(parse_proc_start_time("1 (x) S 1 2"), None);
    assert_eq!(parse_proc_start_time("1 (x)"), None);
}

#[test]
fn signals_only_the_recorded_module() {
    let record = WaybarPidRecord {
        pid: 42,
        start_time: 99,
    };
    let cmdline = b"d2b-wlcontrol\0waybar\0".to_vec();
    assert!(process_matches_waybar(record, Some(99), Some(&cmdline)));
    assert!(!process_matches_waybar(record, Some(98), Some(&cmdline)));
    assert!(!process_matches_waybar(record, None, Some(&cmdline)));
    assert!(!process_matches_waybar(record, Some(99), None));
    assert!(!process_matches_waybar(
        record,
        Some(99),
        Some(&b"bash\0".to_vec())
    ));
}

#[test]
fn recognizes_the_daemon_tool() {
    assert!(is_d2b_program("d2b"));
    assert!(is_d2b_program("/run/current-system/sw/bin/d2b"));
    assert!(is_d2b_program("/bin/d2b/"));
    assert!(!is_d2b_program("d2b-wlcontrol"));
    assert!(!is_d2b_program(""));
}

fn args(parts: &[&str]) -> Vec<String> {
    parts.iter().map(|part| part.to_string()).collect()
}

#[test]
fn recognizes_the_popup() {
    let path = "/run/user/1000/d2b-wlcontrol/quickshell/shell.qml";
    assert!(args_match_quickshell(
        &args(&["/bin/quickshell", "--path", path, "--no-duplicate"]),
        path
    ));
    assert!(!args_match_quickshell(
        &args(&["/bin/quickshell", "--path", path]),
        path
    ));
    assert!(!args_match_quickshell(
        &args(&["/bin/quickshell", path, "--path", "--no-duplicate"]),
        path
    ));
    assert!(!args_match_quickshell(
        &args(&["/bin/other", "--path", path, "--no-duplicate"]),
        path
    ));
    assert!(!args_match_quickshell(&[].to_vec(), path));
    assert!(args_match_quickshell(
        &wlcontrol::frontend::popup_argv(path),
        path
    ));
}

#[test]
fn popup_is_recognized_by_its_command_line() {
    let matches = |bytes: &[u8]| cmdline_matches_quickshell(bytes, "/tmp/é.qml");
    assert!(matches(
        "/bin/quickshell\0--path\0/tmp/é.qml\0--no-duplicate\0".as_bytes()
    ));
    assert!(!matches(
        "/bin/quickshell\0--path\0/tmp/e.qml\0--no-duplicate\0".as_bytes()
    ));
    // Arguments that are no text are passed over.
    let mut odd = b"quickshell\0--path\0\xff\xfe\0".to_vec();
    odd.extend_from_slice("/tmp/é.qml\0--no-duplicate\0".as_bytes());
    assert!(matches(&odd));
    assert!(!matches(b""));
    assert!(!matches(b"\xff\0--path\0"));
}

#[test]
fn popup_records_are_checked() {
    let identity = ProcessIdentity {
        pid: 7,
        start_time_ticks: 1,
    };
    let reused = ProcessIdentity {
        pid: 7,
        start_time_ticks: 2,
    };
    assert_eq!(
        frontend_status(Some(identity), Some(identity), true),
        FrontendStatus::Live(identity)
    );
    assert_eq!(
        frontend_status(Some(identity), Some(identity), false),
        FrontendStatus::Stale
    );
    assert_eq!(
        frontend_status(Some(identity), Some(reused), true),
        FrontendStatus::Stale
    );
    assert_eq!(
        frontend_status(Some(identity), None, true),
        FrontendStatus::Absent
    );
    assert_eq!(frontend_status(None, None, true), FrontendStatus::Absent);
    let zero = ProcessIdentity {
        pid: 0,
        start_time_ticks: 1,
    };
    assert_eq!(
        frontend_status(Some(zero), Some(zero), true),
        FrontendStatus::Absent
    );
}

#[test]
fn opening_hides_a_running_popup_and_starts_one_otherwise() {
    let identity = ProcessIdentity {
        pid: 7,
        start_time_ticks: 1,
    };
    assert_eq!(
        popup_step(FrontendStatus::Live(identity)),
        PopupStep {
            terminate: Some(7),
            remove_record: true,
            start: false,
        }
    );
    assert_eq!(
        popup_step(FrontendStatus::Stale),
        PopupStep {
            terminate: None,
            remove_record: true,
            start: true,
        }
    );
    assert_eq!(
        popup_step(FrontendStatus::Absent),
        PopupStep {
            terminate: None,
            remove_record: false,
            start: true,
        }
    );
}
