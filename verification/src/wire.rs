//! Wire framing for the public socket.
//!
//! Every message is a 4-byte little-endian length prefix followed by one UTF-8
//! JSON document, with a cap of 1 MiB.

use vstd::prelude::*;
use vstd::slice::slice_subrange;

use crate::error::{WlError, WlErrorView, WlResult, result_view};
use crate::text::{decimal, decimal_text};

verus! {

/// Maximum accepted frame size (1 MiB), matching the daemon.
pub const MAX_FRAME_BYTES: usize = 1024 * 1024;

/// The four bytes of a number below 2^32, least significant first.
pub open spec fn length_prefix(length: nat) -> Seq<u8> {
    seq![
        (length % 256) as u8,
        ((length / 256) % 256) as u8,
        ((length / 65536) % 256) as u8,
        ((length / 16777216) % 256) as u8,
    ]
}

/// The number that four bytes denote, least significant first.
pub open spec fn declared_length(prefix: Seq<u8>) -> nat {
    (prefix[0] + 256 * prefix[1] + 65536 * prefix[2] + 16777216 * prefix[3]) as nat
}

/// The frame of a payload.
pub open spec fn frame_of(payload: Seq<u8>) -> Seq<u8> {
    length_prefix(payload.len()) + payload
}

/// What encoding a payload gives.
pub open spec fn encoded(payload: Seq<u8>) -> Result<Seq<u8>, WlErrorView> {
    if payload.len() > MAX_FRAME_BYTES {
        Err(
            WlErrorView::Protocol(
                "frame too large: "@ + decimal(payload.len()) + " > "@ + decimal(
                    MAX_FRAME_BYTES as nat,
                ),
            ),
        )
    } else {
        Ok(frame_of(payload))
    }
}

/// What decoding a frame gives.
pub open spec fn decoded(frame: Seq<u8>) -> Result<Seq<u8>, WlErrorView> {
    if frame.len() < 4 {
        Err(WlErrorView::Protocol("frame shorter than length prefix"@))
    } else if declared_length(frame) > MAX_FRAME_BYTES {
        Err(
            WlErrorView::Protocol(
                "declared frame length "@ + decimal(declared_length(frame)) + " exceeds cap "@
                    + decimal(MAX_FRAME_BYTES as nat),
            ),
        )
    } else if frame.len() - 4 != declared_length(frame) {
        Err(
            WlErrorView::Protocol(
                "frame payload length "@ + decimal((frame.len() - 4) as nat)
                    + " does not match declared "@ + decimal(declared_length(frame)),
            ),
        )
    } else {
        Ok(frame.skip(4))
    }
}

/// Encode a JSON payload into a length-prefixed frame.
pub fn encode_frame(json: &[u8]) -> (frame: WlResult<Vec<u8>>)
    ensures
        result_view(frame) == encoded(json@),
{
    let length: usize = json.len();
    if length > MAX_FRAME_BYTES {
        let mut text = "frame too large: ".to_owned();
        text.append(decimal_text(length as u64).as_str());
        text.append(" > ");
        text.append(decimal_text(MAX_FRAME_BYTES as u64).as_str());
        return Err(WlError::Protocol(text));
    }
    let mut frame: Vec<u8> = vec![
        (length % 256) as u8,
        ((length / 256) % 256) as u8,
        ((length / 65536) % 256) as u8,
        ((length / 16777216) % 256) as u8,
    ];
    let ghost prefix = frame@;
    assert(prefix =~= length_prefix(json@.len()));
    let mut i: usize = 0;
    while i < length
        invariant
            length == json@.len(),
            i <= length,
            frame@ == prefix + json@.take(i as int),
        decreases length - i,
    {
        frame.push(json[i]);
        assert(json@.take(i + 1) =~= json@.take(i as int).push(json@[i as int]));
        assert(frame@ =~= prefix + json@.take(i + 1));
        i = i + 1;
    }
    assert(json@.take(i as int) =~= json@);
    Ok(frame)
}

/// The view of a decoding result.
pub open spec fn payload_view(payload: WlResult<&[u8]>) -> Result<Seq<u8>, WlErrorView> {
    match payload {
        Ok(bytes) => Ok(bytes@),
        Err(error) => Err(error@),
    }
}

/// Decode a length-prefixed frame, returning the JSON payload bytes.
///
/// `frame` must contain the 4-byte prefix followed by exactly the declared
/// number of payload bytes, as one `SOCK_SEQPACKET` message delivers them.
pub fn decode_frame(frame: &[u8]) -> (payload: WlResult<&[u8]>)
    ensures
        payload_view(payload) == decoded(frame@),
{
    if frame.len() < 4 {
        return Err(WlError::Protocol("frame shorter than length prefix".to_owned()));
    }
    let length: u64 = frame[0] as u64 + 256 * (frame[1] as u64) + 65536 * (frame[2] as u64)
        + 16777216 * (frame[3] as u64);
    if length > MAX_FRAME_BYTES as u64 {
        let mut text = "declared frame length ".to_owned();
        text.append(decimal_text(length).as_str());
        text.append(" exceeds cap ");
        text.append(decimal_text(MAX_FRAME_BYTES as u64).as_str());
        return Err(WlError::Protocol(text));
    }
    let payload = slice_subrange(frame, 4, frame.len());
    assert(payload@ =~= frame@.skip(4));
    if payload.len() as u64 != length {
        let mut text = "frame payload length ".to_owned();
        text.append(decimal_text(payload.len() as u64).as_str());
        text.append(" does not match declared ");
        text.append(decimal_text(length).as_str());
        return Err(WlError::Protocol(text));
    }
    Ok(payload)
}

proof fn lemma_prefix_denotes(length: nat)
    requires
        length < 0x1_0000_0000,
    ensures
        declared_length(length_prefix(length)) == length,
{
    let a = (length / 256) as int;
    let b = (length / 65536) as int;
    let c = (length / 16777216) as int;
    assert(b == a / 256 && c == b / 256);
    assert(c < 256);
}

/// Decoding gives back every payload that can be encoded.
pub proof fn law_decoding_undoes_encoding(payload: Seq<u8>)
    requires
        payload.len() <= MAX_FRAME_BYTES,
    ensures
        encoded(payload) is Ok,
        decoded(encoded(payload)->Ok_0) == Ok::<Seq<u8>, WlErrorView>(payload),
{
    lemma_prefix_denotes(payload.len());
    let frame = frame_of(payload);
    assert(frame.take(4) =~= length_prefix(payload.len()));
    assert(declared_length(frame) == declared_length(frame.take(4)));
    assert(frame.skip(4) =~= payload);
}

/// A frame that decodes is the one frame of its payload, and within the cap.
pub proof fn law_encoding_undoes_decoding(frame: Seq<u8>)
    requires
        decoded(frame) is Ok,
    ensures
        encoded(decoded(frame)->Ok_0) == Ok::<Seq<u8>, WlErrorView>(frame),
        decoded(frame)->Ok_0.len() <= MAX_FRAME_BYTES,
{
    let payload = frame.skip(4);
    let prefix = length_prefix(payload.len());
    let (p0, p1, p2, p3) = (frame[0] as int, frame[1] as int, frame[2] as int, frame[3] as int);
    let n = p0 + 256 * p1 + 65536 * p2 + 16777216 * p3;
    assert(payload.len() == n);
    assert(n / 256 == p1 + 256 * p2 + 65536 * p3);
    assert(n / 65536 == p2 + 256 * p3);
    assert(n / 16777216 == p3);
    assert(prefix[0] == frame[0] && prefix[1] == frame[1] && prefix[2] == frame[2] && prefix[3]
        == frame[3]);
    assert(frame_of(payload) =~= frame);
}

/// Two payloads never share a frame.
pub proof fn law_frames_tell_payloads_apart(left: Seq<u8>, right: Seq<u8>)
    requires
        encoded(left) is Ok,
        encoded(left) == encoded(right),
    ensures
        left == right,
{
    law_decoding_undoes_encoding(left);
    law_decoding_undoes_encoding(right);
}

} // verus!
