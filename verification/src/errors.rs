use vstd::prelude::*;

verus! {

/// Everything that can go wrong in the store.
///
/// `SegmentNotFound` is special: it drives the "absent" semantics of reads
/// and is never surfaced by the public dictionary operations. The segment
/// failures carry the raw OS error code of the failed call.
#[derive(Clone, Copy, Debug, PartialEq, Eq, Structural)]
pub enum ShmapError {
    /// A segment name violates the OS naming constraints.
    NameInvalid,
    /// Opening a segment failed for a reason other than not-found.
    SegmentOpenFailed(i32),
    /// Resizing a segment to its new length failed.
    SegmentTruncateFailed(i32),
    /// Unlinking a segment failed for a reason other than already-absent.
    SegmentUnlinkFailed(i32),
    /// The named segment does not exist.
    SegmentNotFound,
    /// The named-lock primitive failed to create or acquire a lock.
    LockError,
    /// A value or metadata record could not be decoded.
    CodecDecodeError,
    /// A value could not be encoded.
    CodecEncodeError,
    /// Authenticated encryption or decryption failed: a wrong key or
    /// corrupted ciphertext, never downgraded to a silent empty result.
    CryptoError,
    /// A requested TTL cannot be represented as an expiration instant.
    TtlOutOfRange,
    /// A filesystem failure unrelated to the shared-memory calls themselves.
    IOError(i32),
}

} // verus!
