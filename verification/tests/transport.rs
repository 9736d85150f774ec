use wlcontrol::WlError;
use wlcontrol::transport::{
    ConnectAttempt, ConnectDecision, ConnectErrorKind, PollReport, ReceiveOutcome, SendOutcome,
    after_connect, after_poll, after_receive, after_send, connect_io_error, missing_socket,
    while_connecting,
};
use wlcontrol::wire::encode_frame;

const PATH: &str = "/run/d2b/public.sock";

#[test]
fn connect_failures_are_told_apart() {
    assert_eq!(
        missing_socket(PATH),
        WlError::DaemonDown("/run/d2b/public.sock does not exist".to_owned())
    );
    for kind in [
        ConnectErrorKind::NotFound,
        ConnectErrorKind::ConnectionRefused,
        ConnectErrorKind::ConnectionAborted,
        ConnectErrorKind::TimedOut,
    ] {
        assert_eq!(
            connect_io_error(PATH, kind, "no"),
            WlError::DaemonDown("failed to connect to /run/d2b/public.sock: no".to_owned())
        );
    }
    assert_eq!(
        connect_io_error(PATH, ConnectErrorKind::PermissionDenied, "no"),
        WlError::Denied("permission denied connecting to /run/d2b/public.sock: no".to_owned())
    );
    assert_eq!(
        connect_io_error(PATH, ConnectErrorKind::Other, "odd"),
        WlError::Io("odd".to_owned())
    );
}

#[test]
fn connecting_waits_only_while_in_progress() {
    assert!(matches!(
        after_connect(PATH, ConnectAttempt::Connected),
        ConnectDecision::Ready
    ));
    assert!(matches!(
        after_connect(PATH, ConnectAttempt::InProgress),
        ConnectDecision::Wait
    ));
    let failed = ConnectAttempt::Failed {
        kind: ConnectErrorKind::Other,
        detail: "odd".to_owned(),
    };
    assert!(matches!(
        after_connect(PATH, failed),
        ConnectDecision::Fail(WlError::Io(text)) if text == "odd"
    ));
    assert_eq!(
        while_connecting(WlError::Timeout("slow".to_owned())),
        WlError::DaemonDown("slow".to_owned())
    );
    assert_eq!(
        while_connecting(WlError::Denied("no".to_owned())),
        WlError::Denied("no".to_owned())
    );
}

#[test]
fn hang_ups_matter_only_without_data() {
    let report = PollReport {
        ready: true,
        broken: false,
        hung_up: true,
        wanted: true,
    };
    assert_eq!(after_poll(report, "receive", "1s", "POLLIN"), Ok(()));
    let report = PollReport {
        wanted: false,
        ..report
    };
    assert_eq!(
        after_poll(report, "receive", "1s", "POLLHUP"),
        Err(WlError::DaemonDown(
            "receive on d2bd public socket failed (POLLHUP)".to_owned()
        ))
    );
    let report = PollReport {
        broken: true,
        wanted: true,
        ..report
    };
    assert!(matches!(
        after_poll(report, "send", "1s", "POLLERR"),
        Err(WlError::DaemonDown(_))
    ));
    let report = PollReport {
        ready: false,
        ..report
    };
    assert_eq!(
        after_poll(report, "send", "1s", ""),
        Err(WlError::Timeout(
            "send on d2bd public socket after 1s".to_owned()
        ))
    );
}

#[test]
fn frames_go_out_whole() {
    assert_eq!(after_send(SendOutcome::Sent(9), 9), Ok(()));
    assert_eq!(
        after_send(SendOutcome::Sent(8), 9),
        Err(WlError::Io("short write on seqpacket socket".to_owned()))
    );
    assert_eq!(
        after_send(SendOutcome::WouldBlock("1s".to_owned()), 9),
        Err(WlError::Timeout("send to d2bd after 1s".to_owned()))
    );
    assert_eq!(
        after_send(SendOutcome::Closed("EPIPE".to_owned()), 9),
        Err(WlError::DaemonDown(
            "d2bd public socket closed during send: EPIPE".to_owned()
        ))
    );
    assert_eq!(
        after_send(SendOutcome::Failed("odd".to_owned()), 9),
        Err(WlError::Io("odd".to_owned()))
    );
}

#[test]
fn payloads_survive_the_wire() {
    let payload = b"{\"type\":\"list\"}";
    let frame = encode_frame(payload).expect("frame");
    assert_eq!(
        after_receive(ReceiveOutcome::Received(frame)),
        Ok(payload.to_vec())
    );
    assert_eq!(
        after_receive(ReceiveOutcome::Received(vec![])),
        Err(WlError::DaemonDown(
            "d2bd public socket closed during receive".to_owned()
        ))
    );
    assert!(matches!(
        after_receive(ReceiveOutcome::Received(vec![1, 0])),
        Err(WlError::Protocol(_))
    ));
    assert_eq!(
        after_receive(ReceiveOutcome::WouldBlock("1s".to_owned())),
        Err(WlError::Timeout("receive from d2bd after 1s".to_owned()))
    );
    assert_eq!(
        after_receive(ReceiveOutcome::Failed("odd".to_owned())),
        Err(WlError::Io("odd".to_owned()))
    );
}
