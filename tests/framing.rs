use cccb_bridge::framing::{frame_message, FrameBuffer, TERMINATOR};

#[test]
fn frame_appends_single_nul() {
    assert_eq!(TERMINATOR, 0);
    assert_eq!(frame_message(b"{\"a\":1}".to_vec()), b"{\"a\":1}\0".to_vec());
    assert_eq!(frame_message(Vec::new()), vec![0u8]);
}

#[test]
fn partial_read_is_kept_until_terminator() {
    let mut buf = FrameBuffer::new();
    buf.push_bytes(b"{\"id\":0,");
    assert_eq!(buf.next_frame(), None);
    assert_eq!(buf.len(), 8);
    buf.push_bytes(b"\"status\":5}\0{\"id\"");
    assert_eq!(buf.next_frame(), Some(b"{\"id\":0,\"status\":5}".to_vec()));
    assert_eq!(buf.next_frame(), None);
    assert_eq!(buf.len(), 5);
    buf.push_bytes(b":1}\0");
    assert_eq!(buf.next_frame(), Some(b"{\"id\":1}".to_vec()));
    assert_eq!(buf.len(), 0);
}

#[test]
fn several_frames_in_one_read_come_out_in_order() {
    let mut buf = FrameBuffer::new();
    buf.push_bytes(b"a\0bc\0\0d");
    assert_eq!(buf.next_frame(), Some(b"a".to_vec()));
    assert_eq!(buf.next_frame(), Some(b"bc".to_vec()));
    assert_eq!(buf.next_frame(), Some(Vec::new()));
    assert_eq!(buf.next_frame(), None);
    assert_eq!(buf.len(), 1);
}

#[test]
fn framed_payload_reads_back() {
    let payload = b"{\"id\":7,\"status\":0,\"message\":null,\"timeRemaining\":0,\"type\":0}".to_vec();
    let mut buf = FrameBuffer::new();
    buf.push_bytes(&frame_message(payload.clone()));
    assert_eq!(buf.next_frame(), Some(payload));
    assert_eq!(buf.len(), 0);
}
