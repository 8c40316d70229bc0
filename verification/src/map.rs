//! The store handle and the per-read decisions of the engine.
//!
//! A `Shmap` holds only the optional cipher key; every segment lives in the
//! host's shared-memory namespace, so two handles on one host see one store.
//! The methods here compute everything a dictionary operation decides —
//! sealing and opening the byte envelopes, decoding the metadata sidecar, and
//! judging a record live, expired or absent — over bytes that the
//! shared-memory layer hands in and out.

use vstd::prelude::*;

use crate::crypto::{aes_seal_of, seal_bytes, spec_open, unseal_bytes, MAX_PLAINTEXT_BYTES};
use crate::errors::ShmapError;
use crate::metadata::{
    decode_metadata, encode_metadata, spec_decode_metadata, spec_encode_metadata, spec_expired,
    Metadata,
};
use crate::names::{
    lock_name_for, sanitize_key, sanitize_metadata_key, spec_lock_name, spec_metadata_name,
    spec_sanitize, spec_valid_segment_name,
};

verus! {

/// A handle on the host-wide store, optionally sealing values under a
/// 256-bit key.
pub struct Shmap {
    cipher_key: Option<Vec<u8>>,
}

impl Clone for Shmap {
    /// A clone seals under the same key (or none) as the original.
    fn clone(&self) -> (r: Shmap)
        ensures
            r.key_view() == self.key_view(),
    {
        proof {
            use_type_invariant(&*self);
        }
        match &self.cipher_key {
            None => Shmap { cipher_key: None },
            Some(k) => Shmap { cipher_key: Some(vstd::slice::slice_to_vec(k.as_slice())) },
        }
    }
}

/// Relies on fdlimit::raise_fd_limit to lift the process's open-file limit;
/// the outcome is ignored, as nothing is assumed of it.
#[verifier::external_body]
fn raise_fd_limit() {
    let _ = fdlimit::raise_fd_limit();
}

impl Shmap {
    /// A key is either absent or exactly 32 bytes.
    #[verifier::type_invariant]
    spec fn wf(self) -> bool {
        match self.cipher_key {
            Some(k) => k@.len() == 32,
            None => true,
        }
    }

    /// The cipher key this handle seals with, if any.
    pub closed spec fn key_view(self) -> Option<Seq<u8>> {
        match self.cipher_key {
            Some(k) => Some(k@),
            None => None,
        }
    }

    /// Whether values are sealed at rest.
    pub open spec fn is_encrypted(self) -> bool {
        self.key_view() is Some
    }

    /// A store without encryption.
    pub fn new() -> (r: Shmap)
        ensures
            r.key_view() is None,
    {
        raise_fd_limit();
        Shmap { cipher_key: None }
    }

    /// A store sealing every value under the given AES-256 key.
    pub fn new_with_encryption(encryption_key: &[u8; 32]) -> (r: Shmap)
        ensures
            r.key_view() == Some(encryption_key@),
    {
        raise_fd_limit();
        let key = vstd::slice::slice_to_vec(encryption_key.as_slice());
        Shmap { cipher_key: Some(key) }
    }

    /// Wraps a plaintext for its segment: under encryption, the envelope
    /// `[nonce][ciphertext || tag]`, 28 bytes longer than the plaintext,
    /// never equal to it, and opening back to it under the same key; without
    /// encryption, the plaintext itself. Sealing fails only for a plaintext
    /// beyond the cipher's length limit.
    pub fn seal(&self, plain: &[u8]) -> (r: Result<Vec<u8>, ShmapError>)
        ensures
            self.key_view() is None ==> (r matches Ok(b) && b@ == plain@),
            plain@.len() <= MAX_PLAINTEXT_BYTES ==> r is Ok,
            self.key_view() matches Some(k) ==> match r {
                Ok(b) => {
                    &&& b@.len() == plain@.len() + 28
                    &&& b@.subrange(12, b@.len() as int) == aes_seal_of(
                        k,
                        b@.subrange(0, 12),
                        plain@,
                    )
                    &&& spec_open(k, b@) == Some(plain@)
                    &&& b@ != plain@
                },
                Err(e) => e == ShmapError::CryptoError,
            },
    {
        proof {
            use_type_invariant(&*self);
        }
        match &self.cipher_key {
            None => Ok(vstd::slice::slice_to_vec(plain)),
            Some(k) => seal_bytes(k.as_slice(), plain),
        }
    }

    /// Unwraps segment bytes: an empty segment reads as absent, and under
    /// encryption a segment shorter than a nonce is treated as corrupted
    /// (absent), never decrypted; an envelope that does not authenticate is
    /// an error.
    pub fn unseal(&self, blob: &[u8]) -> (r: Result<Option<Vec<u8>>, ShmapError>)
        ensures
            blob@.len() == 0 ==> r == Ok::<Option<Vec<u8>>, ShmapError>(None),
            self.key_view() is None && blob@.len() > 0 ==> (r matches Ok(p) && p matches Some(v)
                && v@ == blob@),
            self.key_view() is Some && blob@.len() < 12 ==> r == Ok::<
                Option<Vec<u8>>,
                ShmapError,
            >(None),
            self.key_view() matches Some(k) ==> blob@.len() >= 12 ==> match r {
                Ok(p) => p matches Some(v) && spec_open(k, blob@) == Some(v@),
                Err(e) => e == ShmapError::CryptoError && spec_open(k, blob@) is None,
            },
    {
        proof {
            use_type_invariant(&*self);
        }
        if blob.len() == 0 {
            return Ok(None);
        }
        match &self.cipher_key {
            None => Ok(Some(vstd::slice::slice_to_vec(blob))),
            Some(k) => unseal_bytes(k.as_slice(), blob),
        }
    }

    /// Reads a metadata segment's bytes into a record: absent-like bytes give
    /// `Ok(None)`, bytes that neither open nor decode give the matching
    /// error, and everything else gives the record they canonically encode.
    pub fn decode_metadata_segment(&self, blob: &[u8]) -> (r: Result<Option<Metadata>, ShmapError>)
        ensures
            blob@.len() == 0 ==> r == Ok::<Option<Metadata>, ShmapError>(None),
            self.key_view() is Some && blob@.len() < 12 ==> r == Ok::<
                Option<Metadata>,
                ShmapError,
            >(None),
            self.key_view() is None && blob@.len() > 0 ==> match r {
                Ok(o) => o matches Some(m) && spec_decode_metadata(blob@) == Some(
                    (m.key@, m.expiration, m.encrypted),
                ),
                Err(e) => e == ShmapError::CodecDecodeError && spec_decode_metadata(blob@) is None,
            },
            self.key_view() matches Some(k) ==> blob@.len() >= 12 ==> match r {
                Ok(o) => o matches Some(m) && spec_open(k, blob@) matches Some(v)
                    && spec_decode_metadata(v) == Some((m.key@, m.expiration, m.encrypted)),
                Err(e) => {
                    ||| e == ShmapError::CryptoError && spec_open(k, blob@) is None
                    ||| (e == ShmapError::CodecDecodeError && (spec_open(k, blob@) matches Some(v)
                        && spec_decode_metadata(v) is None))
                },
            },
    {
        match self.unseal(blob) {
            Ok(None) => Ok(None),
            Ok(Some(v)) => match decode_metadata(v.as_slice()) {
                Some(m) => Ok(Some(m)),
                None => Err(ShmapError::CodecDecodeError),
            },
            Err(e) => Err(e),
        }
    }
}

/// Everything one insert writes: the two segment names, the bytes each
/// segment receives, and the one lock name both writes are made under.
#[derive(Debug)]
pub struct InsertPlan {
    /// The value segment's name.
    pub value_name: String,
    /// The bytes of the value segment: the value, sealed when the store
    /// encrypts.
    pub value_bytes: Vec<u8>,
    /// The metadata sidecar's name.
    pub metadata_name: String,
    /// The bytes of the metadata segment: the encoded record, sealed when the
    /// store encrypts.
    pub metadata_bytes: Vec<u8>,
    /// The name of the lock guarding both writes.
    pub lock_name: String,
}

impl Shmap {
    /// Whether this handle seals values at rest.
    pub fn encrypted(&self) -> (r: bool)
        ensures
            r == self.is_encrypted(),
    {
        self.cipher_key.is_some()
    }

    /// Computes everything an insert writes for a key, a raw value and an
    /// optional TTL: the derived names, the sealed value bytes, and the
    /// sealed, canonically encoded metadata record carrying the key, a fresh
    /// expiration of at least the TTL (or none), and the encryption flag.
    pub fn prepare_insert(&self, key: &str, value: &[u8], ttl_millis: Option<u64>) -> (r: Result<
        InsertPlan,
        ShmapError,
    >)
        ensures
            r matches Ok(p) ==> {
                &&& p.value_name@ == spec_sanitize(key@)
                &&& p.metadata_name@ == spec_metadata_name(spec_sanitize(key@))
                &&& p.lock_name@ == spec_lock_name(spec_sanitize(key@))
                &&& spec_valid_segment_name(p.value_name@)
                &&& spec_valid_segment_name(p.metadata_name@)
                &&& (self.key_view() is None ==> p.value_bytes@ == value@)
                &&& (self.key_view() matches Some(k) ==> spec_open(k, p.value_bytes@) == Some(
                    value@,
                ) && p.value_bytes@ != value@)
                &&& exists|expiration: Option<u64>|
                    {
                        &&& (ttl_millis is None <==> expiration is None)
                        &&& (ttl_millis matches Some(d) ==> expiration matches Some(e) && e >= d)
                        &&& (self.key_view() is None ==> p.metadata_bytes@
                            == #[trigger] spec_encode_metadata(
                            key@,
                            expiration,
                            self.is_encrypted(),
                        ))
                        &&& (self.key_view() matches Some(k) ==> spec_open(k, p.metadata_bytes@)
                            == Some(
                            spec_encode_metadata(key@, expiration, self.is_encrypted()),
                        ))
                    }
            },
            r matches Err(e) ==> {
                ||| e == ShmapError::CryptoError
                ||| e == ShmapError::TtlOutOfRange && ttl_millis is Some
            },
            self.key_view() is None && ttl_millis is None ==> r is Ok,
            ttl_millis is None && value@.len() <= MAX_PLAINTEXT_BYTES && 18
                + vstd::utf8::encode_utf8(key@).len() <= MAX_PLAINTEXT_BYTES ==> r is Ok,
    {
        proof {
            vstd::bytes::lemma_auto_spec_u64_to_from_le_bytes();
        }
        let value_name = sanitize_key(key);
        let metadata_name = sanitize_metadata_key(key);
        let lock_name = lock_name_for(value_name.as_str());
        let value_bytes = match self.seal(value) {
            Ok(b) => b,
            Err(e) => {
                return Err(e);
            },
        };
        let md = match Metadata::new(key, ttl_millis, self.encrypted()) {
            Ok(m) => m,
            Err(e) => {
                return Err(e);
            },
        };
        let encoded = encode_metadata(&md);
        let metadata_bytes = match self.seal(encoded.as_slice()) {
            Ok(b) => b,
            Err(e) => {
                return Err(e);
            },
        };
        Ok(InsertPlan { value_name, value_bytes, metadata_name, metadata_bytes, lock_name })
    }
}

impl core::default::Default for Shmap {
    /// The default store is the one without encryption.
    fn default() -> (r: Shmap)
        ensures
            r.key_view() is None,
    {
        Shmap::new()
    }
}

/// What a read concludes about a key from its metadata lookup.
#[derive(Clone, Copy, Debug, PartialEq, Eq, Structural)]
pub enum GetDecision {
    /// No metadata: the key is absent.
    Absent,
    /// The record's expiration lies strictly before now: the value is dead
    /// and its segments are to be removed.
    Expired,
    /// The record is live; the value segment is to be read.
    Live,
}

/// The read decision for a metadata lookup (`None` when no record was found,
/// else the record's expiration) at a given instant.
pub open spec fn spec_get_decision(lookup: Option<Option<u64>>, now: u64) -> GetDecision {
    match lookup {
        None => GetDecision::Absent,
        Some(expiration) => if spec_expired(expiration, now) {
            GetDecision::Expired
        } else {
            GetDecision::Live
        },
    }
}

/// The expiration carried by a metadata lookup, when it found a record.
pub open spec fn spec_lookup_expiration(lookup: Option<&Metadata>) -> Option<Option<u64>> {
    match lookup {
        Some(m) => Some(m.expiration),
        None => None,
    }
}

/// Judges a metadata lookup at the given instant.
pub fn get_decision_at(lookup: Option<&Metadata>, now: u64) -> (r: GetDecision)
    ensures
        r == spec_get_decision(spec_lookup_expiration(lookup), now),
{
    match lookup {
        None => GetDecision::Absent,
        Some(m) => match m.expiration {
            None => GetDecision::Live,
            Some(e) => {
                if now > e {
                    GetDecision::Expired
                } else {
                    GetDecision::Live
                }
            },
        },
    }
}

/// Judges a metadata lookup at the current instant: a missing record is
/// always absent, a record without expiration always live, and otherwise the
/// clock decides.
pub fn read_decision(lookup: Option<&Metadata>) -> (r: GetDecision)
    ensures
        exists|now: u64|
            r == #[trigger] spec_get_decision(spec_lookup_expiration(lookup), now),
        lookup is None ==> r == GetDecision::Absent,
        lookup matches Some(m) && m.expiration is None ==> r == GetDecision::Live,
{
    let now = crate::clock::now_millis();
    get_decision_at(lookup, now)
}

/// TTL expiry: a record whose expiration was set to `now0 + ttl` is live at
/// every instant up to that sum and expired at every instant strictly after
/// it.
pub proof fn lemma_ttl_expiry(now0: u64, ttl: u64, t: u64)
    requires
        now0 + ttl <= u64::MAX,
    ensures
        t > now0 + ttl ==> spec_get_decision(Some(Some((now0 + ttl) as u64)), t)
            == GetDecision::Expired,
        t <= now0 + ttl ==> spec_get_decision(Some(Some((now0 + ttl) as u64)), t)
            == GetDecision::Live,
{
}

} // verus!
