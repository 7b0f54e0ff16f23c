use ikarus::frames::Frame;
use ikarus::frames::FrameDecodeError;
use ikarus::frames::FrameStreamDecoder;

#[test]
fn frame_roundtrip_plain() {
    let payload = vec![1u8, 2, 3, 100, 80];
    let encoded = Frame::encode(&payload);
    assert_eq!(encoded[0], 0x00);
    assert_eq!(*encoded.last().unwrap(), 0xff);
    assert_eq!(Frame::decode(&encoded), Ok(payload));
}

#[test]
fn frame_roundtrip_markers() {
    let payload = vec![0x00u8, 0xff, 0x00, 7, 0xff];
    let encoded = Frame::encode(&payload);
    // every marker byte is doubled: 1 start + 2*4? count: 5 payload bytes,
    // 4 are markers... 0x00,0xff,0x00,0xff markers = 4, plus the plain 7
    assert_eq!(encoded.len(), 1 + 5 + 4 + 1);
    assert_eq!(Frame::decode(&encoded), Ok(payload));
}

#[test]
fn frame_roundtrip_empty() {
    let payload: Vec<u8> = Vec::new();
    let encoded = Frame::encode(&payload);
    assert_eq!(encoded, vec![0x00, 0xff]);
    assert_eq!(Frame::decode(&encoded), Ok(payload));
}

#[test]
fn frame_decode_missing_start() {
    assert_eq!(Frame::decode(&[1, 2, 0xff]), Err(FrameDecodeError::Corrupted));
    assert_eq!(Frame::decode(&[]), Err(FrameDecodeError::Corrupted));
}

#[test]
fn frame_decode_incomplete() {
    assert_eq!(Frame::decode(&[0x00]), Err(FrameDecodeError::Incomplete));
    assert_eq!(Frame::decode(&[0x00, 5, 6]), Err(FrameDecodeError::Incomplete));
}

#[test]
fn frame_decode_broken_escape() {
    // an interior 0x00 must be doubled; a different follower is corruption
    assert_eq!(Frame::decode(&[0x00, 0x00, 7, 0xff]), Err(FrameDecodeError::Corrupted));
}

#[test]
fn stream_splits_inside_doubled_end_marker() {
    // known limitation: a doubled 0xff inside a frame is indistinguishable
    // from the end marker for the stream scanner, so the frame is cut short
    let mut decoder = FrameStreamDecoder::new();
    decoder.receive(&Frame::encode(&[0xff]));
    assert_eq!(decoder.next_message(), Some(Vec::new()));
}

#[test]
fn stream_decodes_consecutive_frames() {
    let msgs: [&[u8]; 3] = [&[10, 20], &[0x00, 30], &[40]];
    let mut data: Vec<u8> = Vec::new();
    for m in msgs {
        data.extend_from_slice(&Frame::encode(m));
    }
    let mut decoder = FrameStreamDecoder::new();
    decoder.receive(&data);
    for m in msgs {
        assert_eq!(decoder.next_message(), Some(m.to_vec()));
    }
    assert_eq!(decoder.next_message(), None);
}

#[test]
fn stream_recovers_after_cut_prefix() {
    // the head of the first frame is lost in transit; the decoder skips the
    // mangled frame and yields the rest
    let mut data: Vec<u8> = Vec::new();
    data.extend_from_slice(&Frame::encode(&[100, 80, 7]));
    data.extend_from_slice(&Frame::encode(&[1]));
    data.extend_from_slice(&Frame::encode(&[2]));
    data.extend_from_slice(&Frame::encode(&[3]));
    for _ in 0..4 {
        data.remove(0);
    }
    let mut decoder = FrameStreamDecoder::new();
    decoder.receive(&data);
    let mut seen: Vec<Vec<u8>> = Vec::new();
    while let Some(m) = decoder.next_message() {
        seen.push(m);
    }
    assert_eq!(seen, vec![vec![1], vec![2], vec![3]]);
}

#[test]
fn stream_waits_for_frame_tail() {
    let encoded = Frame::encode(&[9, 9, 9]);
    let (head, tail) = encoded.split_at(2);
    let mut decoder = FrameStreamDecoder::new();
    decoder.receive(head);
    assert_eq!(decoder.next_message(), None);
    decoder.receive(tail);
    assert_eq!(decoder.next_message(), Some(vec![9, 9, 9]));
}

#[test]
fn stream_discards_markerless_noise() {
    let mut decoder = FrameStreamDecoder::new();
    decoder.receive(&[1, 2, 3, 4, 5]);
    assert_eq!(decoder.next_message(), None);
    // the noise is gone; a following frame decodes cleanly
    decoder.receive(&Frame::encode(&[42]));
    assert_eq!(decoder.next_message(), Some(vec![42]));
}
