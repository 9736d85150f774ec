//! The channel to the daemon: frames, the socket, and what errors say.

use vstd::prelude::*;

use crate::error::{WlErrorView, error_text};
use crate::json::{JsonView, distinct_names, has_name};
use crate::text::{decimal, lemma_first_where_at, lemma_first_where_none};
use crate::transport::{
    ConnectErrorKind, PollReport, ReceiveOutcome, SendOutcome, connect_error, missing_socket_error,
    pending_connect_error, poll_error, received_payload, send_error,
};
use crate::wire::{decoded, encoded};

verus! {

/// A frame is the length of its payload in four bytes, the least significant first,
/// and then the payload; payloads of more than a mebibyte are refused.
pub proof fn law_frames_begin_with_the_length(payload: Seq<u8>)
    ensures
        payload.len() <= 1048576 ==> {
            let frame = encoded(payload);
            &&& frame is Ok
            &&& frame->Ok_0.len() == payload.len() + 4
            &&& frame->Ok_0[0] as int + 256 * frame->Ok_0[1] as int + 65536 * frame->Ok_0[2] as int
                + 16777216 * frame->Ok_0[3] as int == payload.len()
            &&& frame->Ok_0.skip(4) == payload
        },
        payload.len() > 1048576 ==> encoded(payload) == Err::<Seq<u8>, WlErrorView>(
            WlErrorView::Protocol(
                "frame too large: "@ + decimal(payload.len()) + " > "@ + decimal(1048576),
            ),
        ),
{
    if payload.len() <= 1048576 {
        let frame = encoded(payload)->Ok_0;
        assert(frame.skip(4) =~= payload);
        let length = payload.len() as int;
        assert(length % 256 + 256 * ((length / 256) % 256) + 65536 * ((length / 65536) % 256)
            + 16777216 * ((length / 16777216) % 256) == length) by {
            assert(length / 256 == 256 * (length / 65536) + (length / 256) % 256);
            assert(length / 65536 < 256);
        }
    }
}

/// A frame is read as what follows its length, exactly where that is as long as it
/// says and not over a mebibyte.
pub proof fn law_frames_are_read_by_their_length(frame: Seq<u8>)
    ensures
        frame.len() < 4 ==> decoded(frame) == Err::<Seq<u8>, WlErrorView>(
            WlErrorView::Protocol("frame shorter than length prefix"@),
        ),
        frame.len() >= 4 ==> {
            let said = frame[0] as int + 256 * frame[1] as int + 65536 * frame[2] as int + 16777216
                * frame[3] as int;
            &&& decoded(frame) is Ok <==> said == frame.len() - 4 && said <= 1048576
            &&& decoded(frame) is Ok ==> decoded(frame)->Ok_0 == frame.skip(4)
            &&& said > 1048576 ==> decoded(frame) == Err::<Seq<u8>, WlErrorView>(
                WlErrorView::Protocol(
                    "declared frame length "@ + decimal(said as nat) + " exceeds cap "@ + decimal(
                        1048576,
                    ),
                ),
            )
            &&& said <= 1048576 && said != frame.len() - 4 ==> decoded(frame) == Err::<
                Seq<u8>,
                WlErrorView,
            >(
                WlErrorView::Protocol(
                    "frame payload length "@ + decimal((frame.len() - 4) as nat)
                        + " does not match declared "@ + decimal(said as nat),
                ),
            )
        },
{
}

/// What a failed connection is told as: a refusal where the system denied it, a daemon
/// that is down where the socket is missing or refuses, and otherwise what the system
/// says.
pub proof fn law_failed_connections_are_told(path: Seq<char>, detail: Seq<char>)
    ensures
        missing_socket_error(path) == WlErrorView::DaemonDown(path + " does not exist"@),
        connect_error(path, ConnectErrorKind::PermissionDenied, detail) == WlErrorView::Denied(
            "permission denied connecting to "@ + path + ": "@ + detail,
        ),
        connect_error(path, ConnectErrorKind::Other, detail) == WlErrorView::Io(detail),
        forall|kind: ConnectErrorKind|
            kind != ConnectErrorKind::PermissionDenied && kind != ConnectErrorKind::Other
                ==> #[trigger] connect_error(path, kind, detail) == WlErrorView::DaemonDown(
                "failed to connect to "@ + path + ": "@ + detail,
            ),
        pending_connect_error(WlErrorView::Timeout(detail)) == WlErrorView::DaemonDown(detail),
        pending_connect_error(WlErrorView::Denied(detail)) == WlErrorView::Denied(detail),
        pending_connect_error(WlErrorView::Io(detail)) == WlErrorView::Io(detail),
        pending_connect_error(WlErrorView::DaemonDown(detail)) == WlErrorView::DaemonDown(detail),
{
}

/// A wait goes on exactly where something happened in time and the socket is neither
/// in error nor hung up without what was waited for.
pub proof fn law_waits(
    report: PollReport,
    op: Seq<char>,
    timeout: Seq<char>,
    events: Seq<char>,
)
    ensures
        poll_error(report, op, timeout, events) is None <==> report.ready && !report.broken && (
        report.wanted || !report.hung_up),
        !report.ready ==> poll_error(report, op, timeout, events) == Some(
            WlErrorView::Timeout(op + " on d2bd public socket after "@ + timeout),
        ),
        report.ready && poll_error(report, op, timeout, events) is Some ==> poll_error(
            report,
            op,
            timeout,
            events,
        ) == Some(
            WlErrorView::DaemonDown(op + " on d2bd public socket failed ("@ + events + ")"@),
        ),
{
}

/// A frame is sent exactly where all of it went out; whatever else happens is told.
pub proof fn law_sends(outcome: SendOutcome, frame_length: nat)
    ensures
        send_error(outcome, frame_length) is None <==> outcome is Sent && outcome->Sent_0
            == frame_length,
        outcome is Sent && outcome->Sent_0 != frame_length ==> send_error(outcome, frame_length)
            == Some(WlErrorView::Io("short write on seqpacket socket"@)),
        outcome is WouldBlock ==> send_error(outcome, frame_length) == Some(
            WlErrorView::Timeout("send to d2bd after "@ + outcome->WouldBlock_0@),
        ),
        outcome is Closed ==> send_error(outcome, frame_length) == Some(
            WlErrorView::DaemonDown(
                "d2bd public socket closed during send: "@ + outcome->Closed_0@,
            ),
        ),
{
}

/// A packet is received as the payload of its frame; an empty one says that the daemon
/// is gone.
pub proof fn law_receptions(outcome: ReceiveOutcome)
    ensures
        outcome is Received && outcome->Received_0@.len() > 0 ==> received_payload(outcome)
            == decoded(outcome->Received_0@),
        outcome is Received && outcome->Received_0@.len() == 0 ==> received_payload(outcome)
            == Err::<Seq<u8>, WlErrorView>(
            WlErrorView::DaemonDown("d2bd public socket closed during receive"@),
        ),
        outcome is WouldBlock ==> received_payload(outcome) == Err::<Seq<u8>, WlErrorView>(
            WlErrorView::Timeout("receive from d2bd after "@ + outcome->WouldBlock_0@),
        ),
{
}

/// What each error says.
pub proof fn law_error_texts(text: Seq<char>)
    ensures
        error_text(WlErrorView::Config(text)) == "configuration error: "@ + text,
        error_text(WlErrorView::DaemonDown(text)) == "daemon unreachable: "@ + text,
        error_text(WlErrorView::Denied(text)) == "access denied: "@ + text,
        error_text(WlErrorView::Protocol(text)) == "protocol error: "@ + text,
        error_text(WlErrorView::Timeout(text)) == "timed out: "@ + text,
        error_text(WlErrorView::Nixling(text)) == text,
        error_text(WlErrorView::D2b(text)) == text,
        error_text(WlErrorView::Io(text)) == "i/o error: "@ + text,
{
}

/// A member of an object is found under its name, and nothing is found under a name
/// that no member has, or in a document that is no object.
pub proof fn law_members_are_found(
    document: JsonView,
    entries: Seq<(Seq<char>, JsonView)>,
    name: Seq<char>,
    at: int,
)
    requires
        distinct_names(entries),
    ensures
        0 <= at < entries.len() && entries[at].0 == name ==> JsonView::Object(entries).field(name)
            == Some(entries[at].1),
        (forall|i: int| 0 <= i < entries.len() ==> (#[trigger] entries[i]).0 != name)
            ==> JsonView::Object(entries).field(name) is None,
        !(document is Object) ==> document.field(name) is None,
{
    let wanted = has_name(name);
    if 0 <= at < entries.len() && entries[at].0 == name {
        assert forall|i: int| 0 <= i < at implies !wanted(#[trigger] entries[i]) by {
            assert(entries[i].0 != entries[at].0);
        }
        lemma_first_where_at(entries, wanted, at);
    }
    if forall|i: int| 0 <= i < entries.len() ==> (#[trigger] entries[i]).0 != name {
        assert forall|i: int| 0 <= i < entries.len() implies !wanted(#[trigger] entries[i]) by {}
        lemma_first_where_none(entries, wanted);
    }
}

/// What a member is read as: a text as a text, a flag as a flag, a list as a list, and
/// a part of an array by its place.
pub proof fn law_members_are_read(
    document: JsonView,
    name: Seq<char>,
    other: Seq<char>,
    place: int,
    text: Seq<char>,
    flag: bool,
    items: Seq<JsonView>,
)
    ensures
        document.text_field(name) == Some(text) <==> document.field(name) == Some(
            JsonView::Text(text),
        ),
        document.flag_field(name) == Some(flag) <==> document.field(name) == Some(
            JsonView::Bool(flag),
        ),
        document.items_field(name) == Some(items) <==> document.field(name) == Some(
            JsonView::Array(items),
        ),
        document.text_field(name) is Some ==> document.text_field_or(name, other)
            == document.text_field(name),
        document.text_field(name) is None ==> document.text_field_or(name, other)
            == document.text_field(other),
        document is Array && 0 <= place < document->Array_0.len() ==> document.part(name, place)
            == Some(document->Array_0[place]),
        document is Array && place >= document->Array_0.len() ==> document.part(name, place) is None,
        !(document is Array) ==> document.part(name, place) == document.field(name),
{
}

} // verus!
