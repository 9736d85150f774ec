use wlcontrol::wire::{MAX_FRAME_BYTES, decode_frame, encode_frame};

#[test]
fn round_trips_a_payload() {
    let payload = br#"{"kind":"list"}"#;
    let frame = encode_frame(payload).expect("encode");
    assert_eq!(&frame[0..4], &(payload.len() as u32).to_le_bytes());
    let decoded = decode_frame(&frame).expect("decode");
    assert_eq!(decoded, payload);
}

#[test]
fn rejects_oversized_encode() {
    let big = vec![0u8; MAX_FRAME_BYTES + 1];
    assert!(encode_frame(&big).is_err());
}

#[test]
fn rejects_truncated_frame() {
    assert!(decode_frame(&[0, 0]).is_err());
}

#[test]
fn rejects_length_mismatch() {
    // Declares 10 bytes but carries 2.
    let frame = [10u8, 0, 0, 0, b'h', b'i'];
    assert!(decode_frame(&frame).is_err());
}
