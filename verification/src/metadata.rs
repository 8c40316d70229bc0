//! The metadata sidecar: original key, optional expiration instant, and the
//! encryption flag, together with its byte-level codec.
//!
//! A record is laid out as `[encrypted: 1][has expiration: 1]
//! [expiration millis: 8, little-endian, zero when absent]
//! [key byte length: 8, little-endian][key: UTF-8 bytes]`. The encoding is
//! canonical: decoding succeeds exactly on encoder output, and the decoded
//! record re-encodes to the very same bytes.

use vstd::prelude::*;

use crate::clock::now_millis;
use crate::errors::ShmapError;

use vstd::bytes::{
    lemma_auto_spec_u64_to_from_le_bytes, spec_u64_from_le_bytes, spec_u64_to_le_bytes,
    u64_from_le_bytes, u64_to_le_bytes,
};
use vstd::utf8::{decode_utf8, encode_utf8, valid_utf8};

verus! {

/// The sidecar record kept beside every value segment.
#[derive(Debug, Clone)]
pub struct Metadata {
    /// The logical key, as the caller supplied it.
    pub key: String,
    /// The instant after which the value is dead, in milliseconds since the
    /// epoch; `None` means the value never expires.
    pub expiration: Option<u64>,
    /// Whether the value segment carries the encryption envelope.
    pub encrypted: bool,
}

/// The canonical byte encoding of a metadata record.
pub open spec fn spec_encode_metadata(
    key: Seq<char>,
    expiration: Option<u64>,
    encrypted: bool,
) -> Seq<u8> {
    seq![
        if encrypted { 1u8 } else { 0u8 },
        if expiration is Some { 1u8 } else { 0u8 },
    ] + spec_u64_to_le_bytes(
        match expiration {
            Some(e) => e,
            None => 0u64,
        },
    ) + spec_u64_to_le_bytes(encode_utf8(key).len() as u64) + encode_utf8(key)
}

/// What decoding a byte sequence yields: the key, expiration and encryption
/// flag of the record it canonically encodes, or `None` for every other
/// sequence.
pub open spec fn spec_decode_metadata(bytes: Seq<u8>) -> Option<(Seq<char>, Option<u64>, bool)> {
    if bytes.len() < 18 {
        None
    } else {
        let enc = bytes[0];
        let has = bytes[1];
        let e = spec_u64_from_le_bytes(bytes.subrange(2, 10));
        let klen = spec_u64_from_le_bytes(bytes.subrange(10, 18));
        let tail = bytes.subrange(18, bytes.len() as int);
        if enc > 1 || has > 1 {
            None
        } else if has == 0 && e != 0 {
            None
        } else if bytes.len() != 18 + klen {
            None
        } else if !valid_utf8(tail) {
            None
        } else {
            Some(
                (
                    decode_utf8(tail),
                    if has == 1 {
                        Some(e)
                    } else {
                        None
                    },
                    enc == 1,
                ),
            )
        }
    }
}

/// Round trip: every record decodes back from its own encoding.
pub proof fn lemma_metadata_codec_roundtrip(
    key: Seq<char>,
    expiration: Option<u64>,
    encrypted: bool,
)
    requires
        encode_utf8(key).len() <= u64::MAX,
    ensures
        spec_decode_metadata(spec_encode_metadata(key, expiration, encrypted)) == Some(
            (key, expiration, encrypted),
        ),
{
    lemma_auto_spec_u64_to_from_le_bytes();
    vstd::utf8::encode_utf8_valid_utf8(key);
    vstd::utf8::encode_utf8_decode_utf8(key);
    let bytes = spec_encode_metadata(key, expiration, encrypted);
    let e = match expiration {
        Some(e) => e,
        None => 0u64,
    };
    assert(spec_u64_to_le_bytes(e).len() == 8);
    assert(spec_u64_to_le_bytes(encode_utf8(key).len() as u64).len() == 8);
    assert(bytes.subrange(2, 10) =~= spec_u64_to_le_bytes(e));
    assert(bytes.subrange(10, 18) =~= spec_u64_to_le_bytes(encode_utf8(key).len() as u64));
    assert(bytes.subrange(18, bytes.len() as int) =~= encode_utf8(key));
}

/// Canonicity: whatever decodes was exactly the encoding of what it decodes
/// to, so no two distinct byte sequences stand for the same record.
pub proof fn lemma_metadata_codec_canonical(bytes: Seq<u8>)
    ensures
        spec_decode_metadata(bytes) matches Some(m) ==> bytes == spec_encode_metadata(
            m.0,
            m.1,
            m.2,
        ),
{
    if let Some(m) = spec_decode_metadata(bytes) {
        lemma_auto_spec_u64_to_from_le_bytes();
        let tail = bytes.subrange(18, bytes.len() as int);
        vstd::utf8::decode_utf8_encode_utf8(tail);
        assert(encode_utf8(m.0) == tail);
        let enc = spec_encode_metadata(m.0, m.1, m.2);
        assert(spec_u64_to_le_bytes(spec_u64_from_le_bytes(bytes.subrange(2, 10)))
            == bytes.subrange(2, 10));
        assert(spec_u64_to_le_bytes(spec_u64_from_le_bytes(bytes.subrange(10, 18)))
            == bytes.subrange(10, 18));
        assert(bytes =~= enc);
    }
}

/// Relies on String::from_utf8: it succeeds exactly on valid UTF-8 and
/// returns the string those bytes encode.
#[verifier::external_body]
fn string_from_utf8(bytes: Vec<u8>) -> (r: Option<String>)
    ensures
        r matches Some(s) ==> encode_utf8(s@) == bytes@,
        r is Some <==> valid_utf8(bytes@),
{
    String::from_utf8(bytes).ok()
}

/// Serializes a metadata record into its canonical bytes.
pub fn encode_metadata(m: &Metadata) -> (r: Vec<u8>)
    ensures
        r@ == spec_encode_metadata(m.key@, m.expiration, m.encrypted),
{
    let mut out: Vec<u8> = Vec::new();
    out.push(if m.encrypted {
        1
    } else {
        0
    });
    out.push(if m.expiration.is_some() {
        1
    } else {
        0
    });
    let e = match m.expiration {
        Some(e) => e,
        None => 0,
    };
    let mut eb = u64_to_le_bytes(e);
    out.append(&mut eb);
    let kb = m.key.as_str().as_bytes();
    let mut lb = u64_to_le_bytes(kb.len() as u64);
    out.append(&mut lb);
    out.extend_from_slice(kb);
    proof {
        assert(out@ =~= spec_encode_metadata(m.key@, m.expiration, m.encrypted));
    }
    out
}

/// Parses metadata bytes; exactly the canonical encodings decode.
pub fn decode_metadata(bytes: &[u8]) -> (r: Option<Metadata>)
    ensures
        r matches Some(m) ==> spec_decode_metadata(bytes@) == Some(
            (m.key@, m.expiration, m.encrypted),
        ),
        r is None ==> spec_decode_metadata(bytes@) is None,
{
    if bytes.len() < 18 {
        return None;
    }
    let enc = bytes[0];
    let has = bytes[1];
    if enc > 1 || has > 1 {
        return None;
    }
    let e = u64_from_le_bytes(vstd::slice::slice_subrange(bytes, 2, 10));
    if has == 0 && e != 0 {
        return None;
    }
    let klen = u64_from_le_bytes(vstd::slice::slice_subrange(bytes, 10, 18));
    if klen != (bytes.len() - 18) as u64 {
        return None;
    }
    let tail = vstd::slice::slice_subrange(bytes, 18, bytes.len());
    let tail_vec = vstd::slice::slice_to_vec(tail);
    match string_from_utf8(tail_vec) {
        Some(key) => {
            proof {
                vstd::utf8::encode_utf8_decode_utf8(key@);
            }
            Some(
                Metadata {
                    key,
                    expiration: if has == 1 {
                        Some(e)
                    } else {
                        None
                    },
                    encrypted: enc == 1,
                },
            )
        },
        None => None,
    }
}

/// The outcome owed for a TTL granted at the instant `now`: refusal exactly
/// when the sum cannot be represented, else exactly the sum.
pub open spec fn spec_expiration_outcome(now: u64, ttl: u64, r: Result<u64, ShmapError>) -> bool {
    if now + ttl > u64::MAX {
        r == Err::<u64, ShmapError>(ShmapError::TtlOutOfRange)
    } else {
        r == Ok::<u64, ShmapError>((now + ttl) as u64)
    }
}

/// The expiration instant for a TTL granted at `now`: their sum, refused as
/// out of range if and only if it overflows the clock type.
pub fn expiration_at(now: u64, ttl_millis: u64) -> (r: Result<u64, ShmapError>)
    ensures
        spec_expiration_outcome(now, ttl_millis, r),
{
    match now.checked_add(ttl_millis) {
        Some(e) => Ok(e),
        None => Err(ShmapError::TtlOutOfRange),
    }
}

/// Whether a record is dead at the given instant. A record without an
/// expiration never expires; one with an expiration is dead strictly after
/// it.
pub open spec fn spec_expired(expiration: Option<u64>, now: u64) -> bool {
    match expiration {
        Some(e) => now > e,
        None => false,
    }
}

impl Metadata {
    /// Builds the sidecar record for an insert: the expiration is the current
    /// instant plus the TTL, or absent when no TTL is given. A TTL that would
    /// push the expiration past the clock type is refused, not wrapped.
    pub fn new(key: &str, ttl_millis: Option<u64>, encrypted: bool) -> (r: Result<
        Metadata,
        ShmapError,
    >)
        ensures
            r matches Ok(m) ==> {
                &&& m.key@ == key@
                &&& m.encrypted == encrypted
                &&& (ttl_millis is None <==> m.expiration is None)
                &&& (ttl_millis matches Some(d) ==> m.expiration matches Some(e) && e >= d)
            },
            ttl_millis is None ==> r is Ok,
            r matches Err(e) ==> e == ShmapError::TtlOutOfRange && ttl_millis is Some,
    {
        let expiration = match ttl_millis {
            None => None,
            Some(d) => {
                let now = now_millis();
                match expiration_at(now, d) {
                    Ok(e) => Some(e),
                    Err(e) => {
                        return Err(e);
                    },
                }
            },
        };
        Ok(Metadata { key: key.to_owned(), expiration, encrypted })
    }
}

} // verus!
