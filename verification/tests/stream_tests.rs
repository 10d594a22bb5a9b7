use mav_lite::stream::{detect_frame, extract_frames};

fn v1_frame(seq: u8, sys: u8, payload: &[u8]) -> Vec<u8> {
    let mut f = vec![0xFE, payload.len() as u8, seq, sys, 1, 0];
    f.extend_from_slice(payload);
    f.push(0xAA);
    f.push(0xBB);
    f
}

fn v2_frame(sys: u8, payload: &[u8]) -> Vec<u8> {
    let mut f = vec![0xFD, payload.len() as u8, 0, 0, 0, sys, 1, 0, 0, 0];
    f.extend_from_slice(payload);
    f.push(0xCC);
    f.push(0xDD);
    f
}

#[test]
fn test_mixed_stream() {
    // [v1 frame A][v2 frame B][0xFF garbage][v1 frame C]: frames A, B, C in
    // order with exactly one garbage byte skipped.
    let a = v1_frame(1, 10, &[1, 1]);
    let b = v2_frame(20, &[2, 2, 2]);
    let c = v1_frame(3, 30, &[3]);
    let mut stream = Vec::new();
    stream.extend_from_slice(&a);
    stream.extend_from_slice(&b);
    stream.push(0xFF);
    stream.extend_from_slice(&c);

    let (frames, consumed) = extract_frames(&stream);
    assert_eq!(frames.len(), 3);
    assert_eq!(frames[0].as_bytes(), &a[..]);
    assert_eq!(frames[1].as_bytes(), &b[..]);
    assert_eq!(frames[2].as_bytes(), &c[..]);
    assert_eq!(consumed, a.len() + b.len() + 1 + c.len());
}

#[test]
fn test_extract_keeps_partial_tail() {
    // A complete frame followed by the prefix of another: only the complete
    // one comes out and the prefix stays unconsumed for the next read.
    let a = v2_frame(5, &[1, 2, 3, 4]);
    let b = v2_frame(6, &[9, 9]);
    let mut stream = a.clone();
    stream.extend_from_slice(&b[..b.len() - 3]);

    let (frames, consumed) = extract_frames(&stream);
    assert_eq!(frames.len(), 1);
    assert_eq!(frames[0].as_bytes(), &a[..]);
    assert_eq!(consumed, a.len());
}

#[test]
fn test_extract_empty() {
    let (frames, consumed) = extract_frames(&[]);
    assert_eq!(frames.len(), 0);
    assert_eq!(consumed, 0);
}

#[test]
fn test_extract_trailing_garbage_consumed() {
    let a = v1_frame(0, 1, &[]);
    let mut stream = a.clone();
    stream.extend_from_slice(&[0x11, 0x22]);
    let (frames, consumed) = extract_frames(&stream);
    assert_eq!(frames.len(), 1);
    assert_eq!(consumed, stream.len());
}

#[test]
fn test_detect_frame_after_garbage() {
    let mut stream = vec![0x00, 0x01, 0x02];
    stream.extend_from_slice(&v1_frame(0, 9, &[4, 4]));
    let (detected, skipped) = detect_frame(&stream);
    assert!(detected);
    assert_eq!(skipped, 3);
}

#[test]
fn test_detect_frame_garbage_only() {
    let stream = [0x00u8, 0x13, 0x37, 0x99];
    let (detected, skipped) = detect_frame(&stream);
    assert!(!detected);
    assert_eq!(skipped, stream.len());
}

#[test]
fn test_detect_frame_waits_on_prefix() {
    // On a frame prefix nothing is discarded and detection waits for more
    // bytes.
    let frame = v2_frame(7, &[1, 2, 3]);
    let (detected, skipped) = detect_frame(&frame[..6]);
    assert!(!detected);
    assert_eq!(skipped, 0);
}
