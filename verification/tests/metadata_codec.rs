use shmap::{decode_metadata, encode_metadata, Metadata, Shmap, ShmapError};

#[test]
fn codec_round_trip_with_expiration() {
    let m = Metadata { key: "some key".to_string(), expiration: Some(123456789), encrypted: true };
    let bytes = encode_metadata(&m);
    let back = decode_metadata(&bytes).unwrap();
    assert_eq!(back.key, "some key");
    assert_eq!(back.expiration, Some(123456789));
    assert!(back.encrypted);
}

#[test]
fn codec_round_trip_without_expiration() {
    let m = Metadata { key: "k".to_string(), expiration: None, encrypted: false };
    let back = decode_metadata(&encode_metadata(&m)).unwrap();
    assert_eq!(back.key, "k");
    assert_eq!(back.expiration, None);
    assert!(!back.encrypted);
}

#[test]
fn codec_round_trip_non_ascii_key() {
    let m = Metadata { key: "cl\u{e9} \u{20ac} \u{1f511}".to_string(), expiration: Some(7), encrypted: false };
    let back = decode_metadata(&encode_metadata(&m)).unwrap();
    assert_eq!(back.key, "cl\u{e9} \u{20ac} \u{1f511}");
}

#[test]
fn codec_exact_layout() {
    let m = Metadata { key: "ab".to_string(), expiration: Some(0x0102), encrypted: true };
    let bytes = encode_metadata(&m);
    let mut expected = vec![1u8, 1u8];
    expected.extend_from_slice(&0x0102u64.to_le_bytes());
    expected.extend_from_slice(&2u64.to_le_bytes());
    expected.extend_from_slice(b"ab");
    assert_eq!(bytes, expected);
}

#[test]
fn decode_minimal_record() {
    // 18 zero bytes: unencrypted, no expiration, empty key.
    let back = decode_metadata(&[0u8; 18]).unwrap();
    assert_eq!(back.key, "");
    assert_eq!(back.expiration, None);
    assert!(!back.encrypted);
}

#[test]
fn decode_rejects_malformed() {
    // Too short.
    assert!(decode_metadata(&[]).is_none());
    assert!(decode_metadata(&[0u8; 17]).is_none());
    // Flag bytes out of range.
    let mut b = [0u8; 18];
    b[0] = 2;
    assert!(decode_metadata(&b).is_none());
    let mut b = [0u8; 18];
    b[1] = 2;
    assert!(decode_metadata(&b).is_none());
    // Non-canonical: expiration bytes set while the flag says none.
    let mut b = [0u8; 18];
    b[2] = 1;
    assert!(decode_metadata(&b).is_none());
    // Key length that disagrees with the actual tail.
    let mut b = [0u8; 19];
    b[18] = b'x';
    assert!(decode_metadata(&b).is_none());
    // Tail that is not UTF-8.
    let m = Metadata { key: "a".to_string(), expiration: None, encrypted: false };
    let mut bytes = encode_metadata(&m);
    let last = bytes.len() - 1;
    bytes[last] = 0xff;
    assert!(decode_metadata(&bytes).is_none());
}

#[test]
fn metadata_new_without_ttl_never_expires() {
    let m = Metadata::new("k", None, true).unwrap();
    assert_eq!(m.key, "k");
    assert_eq!(m.expiration, None);
    assert!(m.encrypted);
}

#[test]
fn metadata_new_with_ttl_expires_later() {
    let m = Metadata::new("k", Some(60_000), false).unwrap();
    let e = m.expiration.unwrap();
    assert!(e >= 60_000);
    // The expiration lies a TTL past a plausible present (after 2020-01-01).
    assert!(e >= 1_577_836_800_000 + 60_000);
}

#[test]
fn metadata_new_rejects_overflowing_ttl() {
    assert_eq!(
        Metadata::new("k", Some(u64::MAX), false).unwrap_err(),
        ShmapError::TtlOutOfRange
    );
}

#[test]
fn metadata_segment_round_trip_sealed() {
    let mut key = [0u8; 32];
    key[31] = 9;
    let shmap = Shmap::new_with_encryption(&key);
    let m = Metadata { key: "the key".to_string(), expiration: Some(42), encrypted: true };
    let blob = shmap.seal(&encode_metadata(&m)).unwrap();
    let back = shmap.decode_metadata_segment(&blob).unwrap().unwrap();
    assert_eq!(back.key, "the key");
    assert_eq!(back.expiration, Some(42));
    assert!(back.encrypted);
}

#[test]
fn metadata_segment_plain_and_errors() {
    let shmap = Shmap::new();
    // Absent-like: empty bytes.
    assert!(shmap.decode_metadata_segment(&[]).unwrap().is_none());
    // Garbage neither opens nor decodes.
    match shmap.decode_metadata_segment(b"not a record") {
        Err(ShmapError::CodecDecodeError) => {}
        _ => panic!("garbage must be a decode error"),
    }
    // A plain store reads back a plain segment.
    let m = Metadata { key: "p".to_string(), expiration: None, encrypted: false };
    let blob = shmap.seal(&encode_metadata(&m)).unwrap();
    let back = shmap.decode_metadata_segment(&blob).unwrap().unwrap();
    assert_eq!(back.key, "p");
}
