//! Decisions of the seqpacket transport: what the outcome of each socket call
//! means. The calls themselves are made by the program around the library.

use vstd::prelude::*;

use crate::error::{WlError, WlErrorView, WlResult, result_view};
use crate::wire::{decode_frame, decoded, encoded};

verus! {

/// Why a connection could not be made, as the system tells it.
#[derive(Debug, Clone, Copy, PartialEq, Eq, Structural)]
pub enum ConnectErrorKind {
    NotFound,
    ConnectionRefused,
    ConnectionAborted,
    TimedOut,
    PermissionDenied,
    Other,
}

/// Said of a socket that is not there.
pub open spec fn missing_socket_error(path: Seq<char>) -> WlErrorView {
    WlErrorView::DaemonDown(path + " does not exist"@)
}

/// Said of a socket that is not there.
pub fn missing_socket(path: &str) -> (error: WlError)
    ensures
        error@ == missing_socket_error(path@),
{
    WlError::DaemonDown(path.to_owned().concat(" does not exist"))
}

/// What a failed connection means: a daemon that is down, a refusal of access, or
/// a failure of the system.
pub open spec fn connect_error(
    path: Seq<char>,
    kind: ConnectErrorKind,
    detail: Seq<char>,
) -> WlErrorView {
    match kind {
        ConnectErrorKind::PermissionDenied => WlErrorView::Denied(
            "permission denied connecting to "@ + path + ": "@ + detail,
        ),
        ConnectErrorKind::Other => WlErrorView::Io(detail),
        _ => WlErrorView::DaemonDown("failed to connect to "@ + path + ": "@ + detail),
    }
}

/// What a failed connection means; `detail` is what the system says of it.
pub fn connect_io_error(path: &str, kind: ConnectErrorKind, detail: &str) -> (error: WlError)
    ensures
        error@ == connect_error(path@, kind, detail@),
{
    match kind {
        ConnectErrorKind::PermissionDenied => {
            let mut text = "permission denied connecting to ".to_owned();
            text.append(path);
            text.append(": ");
            text.append(detail);
            WlError::Denied(text)
        },
        ConnectErrorKind::Other => WlError::Io(detail.to_owned()),
        _ => {
            let mut text = "failed to connect to ".to_owned();
            text.append(path);
            text.append(": ");
            text.append(detail);
            WlError::DaemonDown(text)
        },
    }
}

/// How a connect call ended.
pub enum ConnectAttempt {
    /// The connection stands.
    Connected,
    /// The connection is being made; its outcome is known when the socket can be
    /// written.
    InProgress,
    /// The connection cannot be made.
    Failed { kind: ConnectErrorKind, detail: String },
}

/// How to go on after a connect call.
pub enum ConnectDecision {
    /// Use the connection.
    Ready,
    /// Wait until the socket can be written, then ask for its error.
    Wait,
    /// Give up.
    Fail(WlError),
}

/// Decides how to go on after a connect call.
pub fn after_connect(path: &str, attempt: ConnectAttempt) -> (decision: ConnectDecision)
    ensures
        match attempt {
            ConnectAttempt::Connected => decision is Ready,
            ConnectAttempt::InProgress => decision is Wait,
            ConnectAttempt::Failed { kind, detail } => decision is Fail && decision->Fail_0@
                == connect_error(path@, kind, detail@),
        },
{
    match attempt {
        ConnectAttempt::Connected => ConnectDecision::Ready,
        ConnectAttempt::InProgress => ConnectDecision::Wait,
        ConnectAttempt::Failed { kind, detail } => ConnectDecision::Fail(
            connect_io_error(path, kind, detail.as_str()),
        ),
    }
}

/// What a failed wait for a connection means: a daemon that does not answer in
/// time is down.
pub open spec fn pending_connect_error(error: WlErrorView) -> WlErrorView {
    match error {
        WlErrorView::Timeout(text) => WlErrorView::DaemonDown(text),
        other => other,
    }
}

/// What a failed wait for a connection means.
pub fn while_connecting(error: WlError) -> (meaning: WlError)
    ensures
        meaning@ == pending_connect_error(error@),
{
    match error {
        WlError::Timeout(text) => WlError::DaemonDown(text),
        other => other,
    }
}

/// What a poll call reported of a socket.
#[derive(Debug, Clone, Copy, PartialEq, Eq, Structural)]
pub struct PollReport {
    /// Something happened before the timeout.
    pub ready: bool,
    /// The socket is in error, or not a socket any more.
    pub broken: bool,
    /// The other side hung up.
    pub hung_up: bool,
    /// What was waited for happened.
    pub wanted: bool,
}

/// What a poll call means for the operation that waits: nothing where it can go
/// on. `timeout` and `events` are the timeout and the events in words.
pub open spec fn poll_error(
    report: PollReport,
    op: Seq<char>,
    timeout: Seq<char>,
    events: Seq<char>,
) -> Option<WlErrorView> {
    if !report.ready {
        Some(WlErrorView::Timeout(op + " on d2bd public socket after "@ + timeout))
    } else if report.broken || (report.hung_up && !report.wanted) {
        Some(WlErrorView::DaemonDown(op + " on d2bd public socket failed ("@ + events + ")"@))
    } else {
        None
    }
}

/// Decides whether the operation that waits can go on.
pub fn after_poll(report: PollReport, op: &str, timeout: &str, events: &str) -> (verdict: WlResult<
    (),
>)
    ensures
        match poll_error(report, op@, timeout@, events@) {
            Some(error) => verdict is Err && verdict->Err_0@ == error,
            None => verdict is Ok,
        },
{
    if !report.ready {
        let mut text = op.to_owned();
        text.append(" on d2bd public socket after ");
        text.append(timeout);
        return Err(WlError::Timeout(text));
    }
    if report.broken || (report.hung_up && !report.wanted) {
        let mut text = op.to_owned();
        text.append(" on d2bd public socket failed (");
        text.append(events);
        text.append(")");
        return Err(WlError::DaemonDown(text));
    }
    Ok(())
}

/// How a send call ended.
pub enum SendOutcome {
    /// So many bytes went out.
    Sent(usize),
    /// The socket would have blocked; the text gives the timeout in words.
    WouldBlock(String),
    /// The other side is gone; the text says how.
    Closed(String),
    /// The system failed; the text says how.
    Failed(String),
}

/// What a send call means; a frame goes out whole or not at all.
pub open spec fn send_error(outcome: SendOutcome, frame_length: nat) -> Option<WlErrorView> {
    match outcome {
        SendOutcome::Sent(count) => if count == frame_length {
            None
        } else {
            Some(WlErrorView::Io("short write on seqpacket socket"@))
        },
        SendOutcome::WouldBlock(timeout) => Some(
            WlErrorView::Timeout("send to d2bd after "@ + timeout@),
        ),
        SendOutcome::Closed(detail) => Some(
            WlErrorView::DaemonDown("d2bd public socket closed during send: "@ + detail@),
        ),
        SendOutcome::Failed(detail) => Some(WlErrorView::Io(detail@)),
    }
}

/// Decides whether a frame went out.
pub fn after_send(outcome: SendOutcome, frame_length: usize) -> (verdict: WlResult<()>)
    ensures
        match send_error(outcome, frame_length as nat) {
            Some(error) => verdict is Err && verdict->Err_0@ == error,
            None => verdict is Ok,
        },
{
    match outcome {
        SendOutcome::Sent(count) => if count == frame_length {
            Ok(())
        } else {
            Err(WlError::Io("short write on seqpacket socket".to_owned()))
        },
        SendOutcome::WouldBlock(timeout) => Err(
            WlError::Timeout("send to d2bd after ".to_owned().concat(timeout.as_str())),
        ),
        SendOutcome::Closed(detail) => Err(
            WlError::DaemonDown(
                "d2bd public socket closed during send: ".to_owned().concat(detail.as_str()),
            ),
        ),
        SendOutcome::Failed(detail) => Err(WlError::Io(detail)),
    }
}

/// How a receive call ended.
pub enum ReceiveOutcome {
    /// These bytes came in, as one message.
    Received(Vec<u8>),
    /// The socket would have blocked; the text gives the timeout in words.
    WouldBlock(String),
    /// The system failed; the text says how.
    Failed(String),
}

/// The payload that a receive call brought: an empty message says that the other
/// side closed the connection.
pub open spec fn received_payload(outcome: ReceiveOutcome) -> Result<Seq<u8>, WlErrorView> {
    match outcome {
        ReceiveOutcome::Received(bytes) => if bytes@.len() == 0 {
            Err(WlErrorView::DaemonDown("d2bd public socket closed during receive"@))
        } else {
            decoded(bytes@)
        },
        ReceiveOutcome::WouldBlock(timeout) => Err(
            WlErrorView::Timeout("receive from d2bd after "@ + timeout@),
        ),
        ReceiveOutcome::Failed(detail) => Err(WlErrorView::Io(detail@)),
    }
}

/// The payload that a receive call brought.
pub fn after_receive(outcome: ReceiveOutcome) -> (payload: WlResult<Vec<u8>>)
    ensures
        result_view(payload) == received_payload(outcome),
{
    match outcome {
        ReceiveOutcome::Received(bytes) => {
            if bytes.len() == 0 {
                return Err(
                    WlError::DaemonDown("d2bd public socket closed during receive".to_owned()),
                );
            }
            match decode_frame(bytes.as_slice()) {
                Ok(payload) => Ok(vstd::slice::slice_to_vec(payload)),
                Err(error) => Err(error),
            }
        },
        ReceiveOutcome::WouldBlock(timeout) => Err(
            WlError::Timeout("receive from d2bd after ".to_owned().concat(timeout.as_str())),
        ),
        ReceiveOutcome::Failed(detail) => Err(WlError::Io(detail)),
    }
}

/// A payload sent as one frame is received as it was sent.
pub proof fn law_payload_survives_the_wire(payload: Seq<u8>, outcome: ReceiveOutcome)
    requires
        encoded(payload) is Ok,
        outcome matches ReceiveOutcome::Received(bytes) && bytes@ == encoded(payload)->Ok_0,
    ensures
        received_payload(outcome) == Ok::<Seq<u8>, WlErrorView>(payload),
{
    crate::wire::law_decoding_undoes_encoding(payload);
}

/// The ways in which a connection can fail are told apart: a refusal is a
/// denial, an unknown failure is one of the system, all others say that the
/// daemon is down.
pub proof fn law_connect_failures_are_told_apart(
    path: Seq<char>,
    kind: ConnectErrorKind,
    detail: Seq<char>,
)
    ensures
        connect_error(path, kind, detail) is Denied <==> kind == ConnectErrorKind::PermissionDenied,
        connect_error(path, kind, detail) is Io <==> kind == ConnectErrorKind::Other,
        connect_error(path, kind, detail) is DaemonDown <==> kind
            != ConnectErrorKind::PermissionDenied && kind != ConnectErrorKind::Other,
{
}

} // verus!
