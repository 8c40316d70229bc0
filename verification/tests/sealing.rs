use shmap::{Shmap, ShmapError};

fn key_a() -> [u8; 32] {
    let mut k = [0u8; 32];
    for (i, b) in k.iter_mut().enumerate() {
        *b = i as u8;
    }
    k
}

fn key_b() -> [u8; 32] {
    let mut k = key_a();
    k[0] = 0xff;
    k
}

#[test]
fn plain_seal_is_identity() {
    let shmap = Shmap::new();
    assert!(!shmap.encrypted());
    let sealed = shmap.seal(b"hello").unwrap();
    assert_eq!(sealed, b"hello".to_vec());
    let opened = shmap.unseal(&sealed).unwrap().unwrap();
    assert_eq!(opened, b"hello".to_vec());
}

#[test]
fn sealed_round_trip() {
    let shmap = Shmap::new_with_encryption(&key_a());
    assert!(shmap.encrypted());
    let sealed = shmap.seal(b"top secret").unwrap();
    let opened = shmap.unseal(&sealed).unwrap().unwrap();
    assert_eq!(opened, b"top secret".to_vec());
}

#[test]
fn sealed_bytes_are_opaque() {
    // The envelope never equals the plaintext and carries nonce + tag.
    let shmap = Shmap::new_with_encryption(&key_a());
    let plain = b"opaque?".to_vec();
    let sealed = shmap.seal(&plain).unwrap();
    assert_ne!(sealed, plain);
    assert_eq!(sealed.len(), plain.len() + 28);
    // The ciphertext body differs from the plaintext too.
    assert_ne!(&sealed[12..12 + plain.len()], plain.as_slice());
}

#[test]
fn wrong_key_fails_not_garbage() {
    let writer = Shmap::new_with_encryption(&key_a());
    let reader = Shmap::new_with_encryption(&key_b());
    let sealed = writer.seal(b"payload").unwrap();
    match reader.unseal(&sealed) {
        Err(ShmapError::CryptoError) => {},
        other => panic!("expected an authentication failure, got {:?}", other.map(|v| v.is_some())),
    }
}

#[test]
fn tampered_envelope_fails() {
    let shmap = Shmap::new_with_encryption(&key_a());
    let mut sealed = shmap.seal(b"payload").unwrap();
    let last = sealed.len() - 1;
    sealed[last] ^= 1;
    assert_eq!(shmap.unseal(&sealed), Err(ShmapError::CryptoError));
}

#[test]
fn empty_segment_reads_absent() {
    let plain_store = Shmap::new();
    assert_eq!(plain_store.unseal(&[]).unwrap(), None);
    let sealed_store = Shmap::new_with_encryption(&key_a());
    assert_eq!(sealed_store.unseal(&[]).unwrap(), None);
}

#[test]
fn short_segment_is_corrupt_not_decrypted() {
    let shmap = Shmap::new_with_encryption(&key_a());
    assert_eq!(shmap.unseal(&[1, 2, 3]).unwrap(), None);
    assert_eq!(shmap.unseal(&[0; 11]).unwrap(), None);
}

#[test]
fn fresh_nonce_every_seal() {
    let shmap = Shmap::new_with_encryption(&key_a());
    let a = shmap.seal(b"same plaintext").unwrap();
    let b = shmap.seal(b"same plaintext").unwrap();
    assert_ne!(a[..12], b[..12]);
}

#[test]
fn large_value_round_trips() {
    // A multi-megabyte payload through the envelope, both modes.
    let big: Vec<u8> = (0..5 * 1024 * 1024u32).map(|i| (i % 251) as u8).collect();
    let plain_store = Shmap::new();
    let stored = plain_store.seal(&big).unwrap();
    assert_eq!(plain_store.unseal(&stored).unwrap().unwrap(), big);
    let sealed_store = Shmap::new_with_encryption(&key_a());
    let sealed = sealed_store.seal(&big).unwrap();
    assert_eq!(sealed.len(), big.len() + 28);
    assert_eq!(sealed_store.unseal(&sealed).unwrap().unwrap(), big);
}

#[test]
fn clone_shares_the_key() {
    let shmap = Shmap::new_with_encryption(&key_a());
    let clone = shmap.clone();
    let sealed = shmap.seal(b"cloned").unwrap();
    assert_eq!(clone.unseal(&sealed).unwrap().unwrap(), b"cloned".to_vec());
    let plain = Shmap::new();
    assert!(!plain.clone().encrypted());
}

#[test]
fn default_store_is_unencrypted() {
    let shmap = Shmap::default();
    assert!(!shmap.encrypted());
}
