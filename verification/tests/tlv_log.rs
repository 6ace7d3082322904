use community_web::utils::tlv::{all_decoded, decode, encode, TlvError, REPLY_TYPE};

#[test]
fn encode_writes_type_length_value() {
    let f = encode(7, &[0xaa, 0xbb, 0xcc]);
    assert_eq!(f, vec![7, 0, 0, 0, 3, 0xaa, 0xbb, 0xcc]);
}

#[test]
fn encode_empty_value() {
    assert_eq!(encode(REPLY_TYPE, &[]), vec![1, 0, 0, 0, 0]);
}

#[test]
fn encode_length_is_big_endian() {
    let value = vec![9u8; 0x0102];
    let f = encode(1, &value);
    assert_eq!(&f[..5], &[1, 0, 0, 1, 2]);
    assert_eq!(f.len(), 5 + 0x0102);
}

#[test]
fn decode_empty_log() {
    assert_eq!(decode(&[], REPLY_TYPE), Ok(vec![]));
}

#[test]
fn decode_of_encode_roundtrip() {
    let v = b"hello world".to_vec();
    let f = encode(REPLY_TYPE, &v);
    assert_eq!(decode(&f, REPLY_TYPE), Ok(vec![v]));
}

#[test]
fn decode_appended_frames_in_order() {
    let mut log = encode(REPLY_TYPE, b"first");
    let before = decode(&log, REPLY_TYPE).unwrap();
    log.extend_from_slice(&encode(REPLY_TYPE, b"second"));
    let after = decode(&log, REPLY_TYPE).unwrap();
    assert_eq!(before, vec![b"first".to_vec()]);
    assert_eq!(after, vec![b"first".to_vec(), b"second".to_vec()]);
}

#[test]
fn decode_passes_over_other_bytes_one_at_a_time() {
    // a byte of another type where a frame would start is skipped on its own
    let mut log = vec![9u8];
    log.extend_from_slice(&encode(1, b"x"));
    assert_eq!(decode(&log, 1), Ok(vec![b"x".to_vec()]));
    // a whole frame of type 2 is read byte by byte; its bytes hold no 1
    let mut log2 = encode(2, &[5, 6]);
    log2.extend_from_slice(&encode(1, &[7]));
    assert_eq!(decode(&log2, 1), Ok(vec![vec![7]]));
}

#[test]
fn decode_truncated_header_fails() {
    assert_eq!(decode(&[1, 0, 0], 1), Err(TlvError::UnexpectedEof));
}

#[test]
fn decode_truncated_value_fails() {
    assert_eq!(decode(&[1, 0, 0, 0, 4, 1, 2], 1), Err(TlvError::UnexpectedEof));
}

#[test]
fn all_decoded_keeps_all_or_nothing() {
    assert_eq!(all_decoded(vec![Some(1), Some(2), Some(3)]), Some(vec![1, 2, 3]));
    assert_eq!(all_decoded(vec![Some(1), None, Some(3)]), None);
    assert_eq!(all_decoded::<u8>(vec![]), Some(vec![]));
}
