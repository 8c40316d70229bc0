//! The optional at-rest encryption layer.
//!
//! A sealed segment is an envelope `[12-byte nonce][ciphertext || tag]`
//! produced by AES-256-GCM under the store's 32-byte key. Opening verifies the
//! tag and recovers the plaintext; a blob shorter than a nonce is treated as
//! corrupted rather than decrypted.

use vstd::prelude::*;

use crate::errors::ShmapError;

verus! {

/// The longest plaintext AES-GCM seals: 2^36 bytes. Encryption refuses
/// anything longer and owes success to anything within it.
pub const MAX_PLAINTEXT_BYTES: u64 = 0x1000000000;

/// What AES-256-GCM encryption returns for a key, nonce and plaintext. The
/// result is a function of these three alone; its exact bytes are stated
/// nowhere.
pub uninterp spec fn aes_seal_of(key: Seq<u8>, nonce: Seq<u8>, plain: Seq<u8>) -> Seq<u8>;

/// What AES-256-GCM authenticated decryption returns for a key, nonce and
/// ciphertext: the plaintext when the ciphertext authenticates, `None` when
/// it does not.
pub uninterp spec fn aes_open_of(key: Seq<u8>, nonce: Seq<u8>, cipher_text: Seq<u8>) -> Option<
    Seq<u8>,
>;

/// Relies on aes_gcm::Aes256Gcm through the Aead trait: AES-256-GCM with a
/// 16-byte postfix tag, deterministic in key, nonce and plaintext, whose
/// output decrypts to the plaintext under the same key and nonce, and which
/// fails only for a plaintext beyond the mode's length limit.
#[verifier::external_body]
fn aes_encrypt(key: &[u8], nonce: &[u8], plain: &[u8]) -> (r: Result<Vec<u8>, ShmapError>)
    requires
        key@.len() == 32,
        nonce@.len() == 12,
    ensures
        r matches Ok(c) ==> c@ == aes_seal_of(key@, nonce@, plain@) && c@.len() == plain@.len()
            + 16 && aes_open_of(key@, nonce@, c@) == Some(plain@),
        r matches Err(e) ==> e == ShmapError::CryptoError,
        plain@.len() <= MAX_PLAINTEXT_BYTES ==> r is Ok,
{
    let cipher = <aes_gcm::Aes256Gcm as aes_gcm::KeyInit>::new(
        aes_gcm::aead::generic_array::GenericArray::from_slice(key),
    );
    let nonce = aes_gcm::Nonce::from_slice(nonce);
    match aes_gcm::aead::Aead::encrypt(&cipher, nonce, plain) {
        Ok(c) => Ok(c),
        Err(_) => Err(ShmapError::CryptoError),
    }
}

/// Relies on aes_gcm::Aes256Gcm through the Aead trait: authenticated
/// decryption, deterministic in key, nonce and ciphertext, which fails rather
/// than return bytes that do not authenticate.
#[verifier::external_body]
fn aes_decrypt(key: &[u8], nonce: &[u8], cipher_text: &[u8]) -> (r: Result<Vec<u8>, ShmapError>)
    requires
        key@.len() == 32,
        nonce@.len() == 12,
    ensures
        r matches Ok(p) ==> aes_open_of(key@, nonce@, cipher_text@) == Some(p@),
        r matches Err(e) ==> e == ShmapError::CryptoError && aes_open_of(
            key@,
            nonce@,
            cipher_text@,
        ) is None,
{
    let cipher = <aes_gcm::Aes256Gcm as aes_gcm::KeyInit>::new(
        aes_gcm::aead::generic_array::GenericArray::from_slice(key),
    );
    let nonce = aes_gcm::Nonce::from_slice(nonce);
    match aes_gcm::aead::Aead::decrypt(&cipher, nonce, cipher_text) {
        Ok(p) => Ok(p),
        Err(_) => Err(ShmapError::CryptoError),
    }
}

/// Relies on rand::thread_rng and Rng::fill for twelve random bytes; nothing
/// is assumed of the values beyond the count.
#[verifier::external_body]
fn random_nonce() -> (r: Vec<u8>)
    ensures
        r@.len() == 12,
{
    let mut nonce = vec![0u8; 12];
    rand::Rng::fill(&mut rand::thread_rng(), nonce.as_mut_slice());
    nonce
}

/// What opening an envelope under `key` yields: `None` when the blob is
/// shorter than a nonce, else whatever authenticated decryption of the
/// remainder under the leading nonce returns.
pub open spec fn spec_open(key: Seq<u8>, blob: Seq<u8>) -> Option<Seq<u8>> {
    if blob.len() < 12 {
        None
    } else {
        aes_open_of(key, blob.subrange(0, 12), blob.subrange(12, blob.len() as int))
    }
}

/// Seals a plaintext under `key` with a fresh random nonce. On success the
/// envelope is 28 bytes longer than the plaintext, never equals it, and opens
/// back to it under the same key.
pub(crate) fn seal_bytes(key: &[u8], plain: &[u8]) -> (r: Result<Vec<u8>, ShmapError>)
    requires
        key@.len() == 32,
    ensures
        r matches Ok(b) ==> {
            &&& b@.len() == plain@.len() + 28
            &&& b@.subrange(12, b@.len() as int) == aes_seal_of(
                key@,
                b@.subrange(0, 12),
                plain@,
            )
            &&& spec_open(key@, b@) == Some(plain@)
            &&& b@ != plain@
        },
        r matches Err(e) ==> e == ShmapError::CryptoError,
        plain@.len() <= MAX_PLAINTEXT_BYTES ==> r is Ok,
{
    let nonce = random_nonce();
    match aes_encrypt(key, nonce.as_slice(), plain) {
        Ok(mut cipher_text) => {
            let ghost ct = cipher_text@;
            let mut blob = nonce;
            blob.append(&mut cipher_text);
            proof {
                assert(blob@.subrange(0, 12) =~= nonce@);
                assert(blob@.subrange(12, blob@.len() as int) =~= ct);
                assert(blob@.len() != plain@.len());
            }
            Ok(blob)
        },
        Err(e) => Err(e),
    }
}

/// Opens an envelope under `key`: too-short blobs are reported as absent
/// (`Ok(None)`), and an envelope that does not authenticate is an error.
pub(crate) fn unseal_bytes(key: &[u8], blob: &[u8]) -> (r: Result<Option<Vec<u8>>, ShmapError>)
    requires
        key@.len() == 32,
    ensures
        blob@.len() < 12 ==> r == Ok::<Option<Vec<u8>>, ShmapError>(None),
        blob@.len() >= 12 ==> match r {
            Ok(p) => p matches Some(v) && spec_open(key@, blob@) == Some(v@),
            Err(e) => e == ShmapError::CryptoError && spec_open(key@, blob@) is None,
        },
{
    if blob.len() < 12 {
        return Ok(None);
    }
    let nonce = vstd::slice::slice_subrange(blob, 0, 12);
    let cipher_text = vstd::slice::slice_subrange(blob, 12, blob.len());
    match aes_decrypt(key, nonce, cipher_text) {
        Ok(p) => Ok(Some(p)),
        Err(e) => Err(e),
    }
}

} // verus!
