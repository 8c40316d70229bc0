//! The garbage-collection sweep's classification rules.
//!
//! A sweep walks the segment namespace once and classifies every entry by its
//! name, then decides its fate from the matching metadata record, the
//! presence of its structural counterparts, and its age. Entries younger than
//! the grace window are never removed for a missing counterpart: they may be
//! mid-creation by a writer whose second segment has not landed yet. The
//! sweep itself performs removals through the normal removal path; the
//! functions here only decide.

use vstd::prelude::*;

use crate::errors::ShmapError;
use crate::metadata::{spec_expired, Metadata};
use crate::names::{
    spec_ends_with, spec_lock_name, spec_metadata_name, spec_sanitize, spec_starts_with,
    str_ends_with, str_starts_with,
};

verus! {

/// How long an incomplete entry is left alone before its missing counterpart
/// makes it an orphan, in milliseconds.
pub const GRACE_MILLIS: u64 = 5000;

/// What a directory entry's name says it is.
#[derive(Clone, Copy, Debug, PartialEq, Eq, Structural)]
pub enum EntryKind {
    /// A value segment of this store.
    Value,
    /// A metadata sidecar of this store.
    Metadata,
    /// A lock file of this store.
    Lock,
    /// Not this store's entry; the sweep never touches it.
    Foreign,
}

pub open spec fn spec_entry_kind(name: Seq<char>) -> EntryKind {
    if !spec_starts_with(name, "shmap"@) {
        EntryKind::Foreign
    } else if spec_ends_with(name, "metadata"@) {
        EntryKind::Metadata
    } else if spec_ends_with(name, "lock"@) {
        EntryKind::Lock
    } else {
        EntryKind::Value
    }
}

/// Classifies a directory entry by its name alone.
pub fn classify_entry_name(name: &str) -> (r: EntryKind)
    ensures
        r == spec_entry_kind(name@),
{
    if !str_starts_with(name, "shmap") {
        EntryKind::Foreign
    } else if str_ends_with(name, "metadata") {
        EntryKind::Metadata
    } else if str_ends_with(name, "lock") {
        EntryKind::Lock
    } else {
        EntryKind::Value
    }
}

/// The sweep's verdict on a value segment.
#[derive(Clone, Copy, Debug, PartialEq, Eq, Structural)]
pub enum ValueEntryAction {
    /// The record expired: remove the value segment and its metadata.
    RemoveValueAndMetadata,
    /// The record is live: keep the entry and report its original key.
    KeepKey,
    /// No metadata and the entry has outlived the grace window: remove the
    /// orphaned value segment.
    RemoveValue,
    /// Leave the entry alone: it is younger than the grace window, or its
    /// metadata could not be read and removal would be on ambiguous grounds.
    Leave,
}

/// The verdict on a value segment, from its metadata lookup (the record's
/// expiration when one was found), its age and the current instant.
pub open spec fn spec_value_entry_action(
    lookup: Result<Option<Option<u64>>, ShmapError>,
    age_millis: u64,
    now: u64,
) -> ValueEntryAction {
    match lookup {
        Ok(Some(expiration)) => if spec_expired(expiration, now) {
            ValueEntryAction::RemoveValueAndMetadata
        } else {
            ValueEntryAction::KeepKey
        },
        Ok(None) => if age_millis > GRACE_MILLIS {
            ValueEntryAction::RemoveValue
        } else {
            ValueEntryAction::Leave
        },
        Err(_) => ValueEntryAction::Leave,
    }
}

/// The expirations seen by a metadata lookup, with the record itself dropped.
pub open spec fn spec_lookup_view(lookup: Result<Option<Metadata>, ShmapError>) -> Result<
    Option<Option<u64>>,
    ShmapError,
> {
    match lookup {
        Ok(Some(m)) => Ok(Some(m.expiration)),
        Ok(None) => Ok(None),
        Err(e) => Err(e),
    }
}

/// Decides a value segment's fate during a sweep.
pub fn value_entry_action(
    lookup: &Result<Option<Metadata>, ShmapError>,
    age_millis: u64,
    now: u64,
) -> (r: ValueEntryAction)
    ensures
        r == spec_value_entry_action(spec_lookup_view(*lookup), age_millis, now),
{
    match lookup {
        Ok(Some(m)) => match m.expiration {
            Some(e) => {
                if now > e {
                    ValueEntryAction::RemoveValueAndMetadata
                } else {
                    ValueEntryAction::KeepKey
                }
            },
            None => ValueEntryAction::KeepKey,
        },
        Ok(None) => {
            if age_millis > GRACE_MILLIS {
                ValueEntryAction::RemoveValue
            } else {
                ValueEntryAction::Leave
            }
        },
        Err(_) => ValueEntryAction::Leave,
    }
}

/// Whether a metadata sidecar is an orphan to remove: its value segment is
/// missing and it has outlived the grace window.
pub open spec fn spec_orphan_metadata_removal(value_exists: bool, age_millis: u64) -> bool {
    !value_exists && age_millis > GRACE_MILLIS
}

/// Decides a metadata entry's fate during a sweep.
pub fn orphan_metadata_removal(value_exists: bool, age_millis: u64) -> (r: bool)
    ensures
        r == spec_orphan_metadata_removal(value_exists, age_millis),
{
    !value_exists && age_millis > GRACE_MILLIS
}

/// Whether a lock file is an orphan to remove: neither its value segment nor
/// its metadata exists, and it has outlived the grace window.
pub open spec fn spec_orphan_lock_removal(
    value_exists: bool,
    metadata_exists: bool,
    age_millis: u64,
) -> bool {
    !value_exists && !metadata_exists && age_millis > GRACE_MILLIS
}

/// Decides a lock entry's fate during a sweep.
pub fn orphan_lock_removal(value_exists: bool, metadata_exists: bool, age_millis: u64) -> (r: bool)
    ensures
        r == spec_orphan_lock_removal(value_exists, metadata_exists, age_millis),
{
    !value_exists && !metadata_exists && age_millis > GRACE_MILLIS
}

/// The sweep never mistakes the store's own entries: a key's value segment,
/// metadata sidecar and lock file are classified as exactly what they are.
pub proof fn lemma_store_names_classify(key: Seq<char>)
    ensures
        spec_entry_kind(spec_sanitize(key)) == EntryKind::Value,
        spec_entry_kind(spec_metadata_name(spec_sanitize(key))) == EntryKind::Metadata,
        spec_entry_kind(spec_lock_name(spec_sanitize(key))) == EntryKind::Lock,
{
    reveal_strlit("shmap");
    reveal_strlit("metadata");
    reveal_strlit("lock");
    reveal_strlit(".metadata");
    reveal_strlit(".lock");
    let s = spec_sanitize(key);
    crate::names::lemma_sanitize_shape(key);
    let m = spec_metadata_name(s);
    assert(m == s + ".metadata"@);
    assert(spec_starts_with(m, "shmap"@)) by {
        assert(m.subrange(0, 5) =~= s.subrange(0, 5));
    }
    assert(spec_ends_with(m, "metadata"@)) by {
        assert(m.subrange(m.len() - 8, m.len() as int) =~= "metadata"@);
    }
    crate::names::lemma_strip_of_sanitized(key);
    let l = spec_lock_name(s);
    assert(l == s + ".lock"@);
    assert(spec_starts_with(l, "shmap"@)) by {
        assert(l.subrange(0, 5) =~= s.subrange(0, 5));
    }
    assert(!spec_ends_with(l, "metadata"@)) by {
        if l.len() >= 8 && l.subrange(l.len() - 8, l.len() as int) == "metadata"@ {
            assert(l[l.len() - 1] == "metadata"@[7]);
            assert(l[l.len() - 1] == ".lock"@[4]);
            assert(false);
        }
    }
    assert(spec_ends_with(l, "lock"@)) by {
        assert(l.subrange(l.len() - 4, l.len() as int) =~= "lock"@);
    }
}

/// Orphan healing: once an entry has outlived the grace window, a value
/// segment without metadata, a metadata sidecar without its value, and a lock
/// file without either are all removed.
pub proof fn lemma_orphan_healing(age_millis: u64, now: u64)
    requires
        age_millis > GRACE_MILLIS,
    ensures
        spec_value_entry_action(Ok(None), age_millis, now) == ValueEntryAction::RemoveValue,
        spec_orphan_metadata_removal(false, age_millis),
        spec_orphan_lock_removal(false, false, age_millis),
{
}

/// The grace window: an entry at most as old as the window is never removed
/// for a missing counterpart, however incomplete it looks.
pub proof fn lemma_grace_window(age_millis: u64, now: u64)
    requires
        age_millis <= GRACE_MILLIS,
    ensures
        spec_value_entry_action(Ok(None), age_millis, now) == ValueEntryAction::Leave,
        !spec_orphan_metadata_removal(false, age_millis),
        !spec_orphan_lock_removal(false, false, age_millis),
{
}

/// Ambiguity is never grounds for removal: a value segment whose metadata
/// failed to read is left untouched, whatever its age.
pub proof fn lemma_no_removal_on_ambiguity(e: ShmapError, age_millis: u64, now: u64)
    ensures
        spec_value_entry_action(Err(e), age_millis, now) == ValueEntryAction::Leave,
{
}

} // verus!
