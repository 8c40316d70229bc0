//! A key/value store over named, RAM-backed shared-memory segments.
//!
//! Each logical key is hashed to a bounded, filesystem-legal segment name; the
//! value lives in one segment, a metadata sidecar (original key, optional
//! expiration instant, encryption flag) in a second, and both share one named
//! advisory lock. Values may be sealed with AES-256-GCM. A garbage-collection
//! sweep classifies directory entries and heals orphans left by crashed
//! writers.
//!
//! This crate holds the verified engine: name derivation, the sealing
//! envelope, the metadata codec, expiration decisions, and the sweep's
//! classification rules. The thin layer that performs the actual shared-memory
//! system calls hands bytes in and out of these functions.

mod clock;
mod crypto;
mod errors;
mod index;
mod map;
mod metadata;
mod names;
mod shm;
mod sweep;

pub use clock::now_millis;
pub use crypto::MAX_PLAINTEXT_BYTES;
pub use errors::ShmapError;
pub use index::Index;
pub use map::{get_decision_at, read_decision, GetDecision, InsertPlan, Shmap};
pub use metadata::{decode_metadata, encode_metadata, expiration_at, Metadata};
pub use names::{
    lock_name_for, sanitize_key, sanitize_metadata_key, str_ends_with, str_starts_with,
    trim_suffix, validate_segment_name,
};
pub use shm::{open_read_outcome, open_write_outcome, unlink_outcome};
pub use sweep::{
    classify_entry_name, orphan_lock_removal, orphan_metadata_removal, value_entry_action,
    EntryKind, ValueEntryAction, GRACE_MILLIS,
};
