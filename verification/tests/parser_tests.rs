use mav_lite::crc::calculate_crc;
use mav_lite::mavlink::{MavFrame, MavVersion, ParseError};

fn v1_frame(seq: u8, sys: u8, comp: u8, msgid: u8, payload: &[u8]) -> Vec<u8> {
    let mut f = vec![0xFE, payload.len() as u8, seq, sys, comp, msgid];
    f.extend_from_slice(payload);
    f.push(0xAA);
    f.push(0xBB);
    f
}

fn v2_frame(incompat: u8, seq: u8, sys: u8, comp: u8, msgid: u32, payload: &[u8]) -> Vec<u8> {
    let mut f = vec![
        0xFD,
        payload.len() as u8,
        incompat,
        0x00,
        seq,
        sys,
        comp,
        (msgid & 0xFF) as u8,
        ((msgid >> 8) & 0xFF) as u8,
        ((msgid >> 16) & 0xFF) as u8,
    ];
    f.extend_from_slice(payload);
    f.push(0xCC);
    f.push(0xDD);
    if incompat & 0x01 != 0 {
        f.extend_from_slice(&[0u8; 13]);
    }
    f
}

#[test]
fn test_crc_calculation() {
    // Known CRC test
    let data = [0x09, 0x00, 0x00, 0x00, 0x01, 0x01];
    let crc = calculate_crc(&data);
    assert_ne!(crc, 0); // Basic sanity check
}

#[test]
fn test_crc_known_vector() {
    // The CRC-16/MCRF4XX catalogue check value.
    let crc = calculate_crc(b"123456789");
    assert_eq!(crc, 0x6F91);
}

#[test]
fn test_incomplete_packet_v2() {
    let short_buf = [0xFD, 0x00];
    let result = MavFrame::parse(&short_buf);
    assert!(matches!(result, Err(ParseError::Incomplete(_, _))));
}

#[test]
fn test_incomplete_packet_v1() {
    let short_buf = [0xFE, 0x00];
    let result = MavFrame::parse(&short_buf);
    assert!(matches!(result, Err(ParseError::Incomplete(_, _))));
}

#[test]
fn test_invalid_magic() {
    let bad_buf = [0xFF, 0x00, 0x00, 0x00, 0x00, 0x00, 0x00, 0x00, 0x00, 0x00];
    let result = MavFrame::parse(&bad_buf);
    assert!(matches!(result, Err(ParseError::InvalidMagic(_))));
}

#[test]
fn test_empty_buffer() {
    let result = MavFrame::parse(&[]);
    assert!(matches!(result, Err(ParseError::Incomplete(1, 0))));
}

#[test]
fn test_parse_v1_round_trip() {
    let payload = [1u8, 2, 3, 4, 5, 6, 7, 8, 9];
    let bytes = v1_frame(0x42, 0x07, 0x01, 0x00, &payload);
    let (frame, consumed) = MavFrame::parse(&bytes).expect("complete v1 frame");
    assert_eq!(consumed, bytes.len());
    assert_eq!(frame.version(), MavVersion::V1);
    assert_eq!(frame.sequence(), 0x42);
    assert_eq!(frame.sys_id(), 0x07);
    assert_eq!(frame.comp_id(), 0x01);
    assert_eq!(frame.msg_id(), 0x00);
    assert_eq!(frame.payload(), &payload);
    assert_eq!(frame.as_bytes(), &bytes[..]);
    assert_eq!(frame.len(), bytes.len());
}

#[test]
fn test_parse_v2_round_trip() {
    // A v2 HEARTBEAT as a ground station would send it: 21 bytes in all.
    let payload = [0u8; 9];
    let bytes = v2_frame(0x00, 0x00, 0xFF, 0x01, 0, &payload);
    assert_eq!(bytes.len(), 21);
    let (frame, consumed) = MavFrame::parse(&bytes).expect("complete v2 frame");
    assert_eq!(consumed, 21);
    assert_eq!(frame.version(), MavVersion::V2);
    assert_eq!(frame.sys_id(), 0xFF);
    assert_eq!(frame.comp_id(), 0x01);
    assert_eq!(frame.msg_id(), 0);
    assert_eq!(frame.sequence(), 0x00);
    assert_eq!(frame.payload(), &payload);
    assert_eq!(frame.as_bytes(), &bytes[..]);
}

#[test]
fn test_parse_v2_signed() {
    // A signed v2 frame carries exactly 13 trailing signature bytes.
    let payload = [7u8; 4];
    let bytes = v2_frame(0x01, 1, 2, 3, 77, &payload);
    assert_eq!(bytes.len(), 10 + 4 + 2 + 13);
    let (frame, consumed) = MavFrame::parse(&bytes).expect("complete signed v2 frame");
    assert_eq!(consumed, bytes.len());
    assert_eq!(frame.as_bytes(), &bytes[..]);
    assert_eq!(frame.msg_id(), 77);
}

#[test]
fn test_msg_id_little_endian() {
    let bytes = v2_frame(0x00, 0, 1, 1, 0x030201, &[]);
    let (frame, _) = MavFrame::parse(&bytes).expect("complete v2 frame");
    assert_eq!(frame.msg_id(), 0x030201);
}

#[test]
fn test_max_payload_v1() {
    let payload = [0x5Au8; 255];
    let bytes = v1_frame(0, 1, 1, 0, &payload);
    assert_eq!(bytes.len(), 6 + 255 + 2);
    let (frame, consumed) = MavFrame::parse(&bytes).expect("complete max-payload frame");
    assert_eq!(consumed, 263);
    assert_eq!(frame.payload().len(), 255);
}

#[test]
fn test_incremental_every_split() {
    // Every proper prefix of a complete frame asks for more bytes and
    // consumes nothing.
    let bytes = v2_frame(0x00, 9, 8, 7, 42, &[1, 2, 3]);
    for k in 0..bytes.len() {
        let result = MavFrame::parse(&bytes[..k]);
        assert!(matches!(result, Err(ParseError::Incomplete(_, _))));
    }
    let bytes = v1_frame(1, 2, 3, 4, &[5, 6]);
    for k in 0..bytes.len() {
        let result = MavFrame::parse(&bytes[..k]);
        assert!(matches!(result, Err(ParseError::Incomplete(_, _))));
    }
}

#[test]
fn test_resync_after_garbage() {
    // Garbage before a frame: one InvalidMagic per garbage byte, then the
    // frame parses whole.
    let garbage = [0x00u8, 0x42, 0xFF];
    let frame_bytes = v1_frame(0, 1, 1, 0, &[9, 9]);
    let mut stream = garbage.to_vec();
    stream.extend_from_slice(&frame_bytes);

    let mut advances = 0;
    let mut pos = 0;
    loop {
        match MavFrame::parse(&stream[pos..]) {
            Ok((frame, consumed)) => {
                assert_eq!(advances, garbage.len());
                assert_eq!(consumed, frame_bytes.len());
                assert_eq!(frame.as_bytes(), &frame_bytes[..]);
                break;
            }
            Err(ParseError::InvalidMagic(b)) => {
                assert_eq!(b, stream[pos]);
                pos += 1;
                advances += 1;
            }
            other => panic!("unexpected parse outcome: {:?}", other),
        }
    }
}

#[test]
fn test_incomplete_reports_need_and_have() {
    // Header present, payload truncated: the error names the full length
    // needed and the bytes at hand.
    let bytes = v1_frame(0, 1, 1, 0, &[1, 2, 3, 4]);
    let result = MavFrame::parse(&bytes[..8]);
    assert!(matches!(result, Err(ParseError::Incomplete(12, 8))));
}
