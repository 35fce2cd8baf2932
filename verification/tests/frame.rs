use pomodoro::frame::frame_message;

#[test]
fn empty_payload_frames_to_zero_length() {
    assert_eq!(frame_message(b""), vec![0, 0, 0, 0]);
}

#[test]
fn short_payload_is_length_then_bytes() {
    assert_eq!(
        frame_message(b"hello"),
        vec![0, 0, 0, 5, b'h', b'e', b'l', b'l', b'o']
    );
}

#[test]
fn length_is_big_endian() {
    let payload = vec![7u8; 258];
    let framed = frame_message(&payload);
    assert_eq!(&framed[..4], &[0, 0, 1, 2]);
    assert_eq!(&framed[4..], &payload[..]);
}

#[test]
fn length_spans_all_four_bytes() {
    let payload = vec![1u8; 0x0102_0304];
    let framed = frame_message(&payload);
    assert_eq!(&framed[..4], &[1, 2, 3, 4]);
    assert_eq!(framed.len(), 4 + payload.len());
}
