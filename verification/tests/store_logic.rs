use shmap::{
    classify_entry_name, expiration_at, get_decision_at, lock_name_for, now_millis,
    open_read_outcome, open_write_outcome,
    orphan_lock_removal, orphan_metadata_removal, read_decision, sanitize_key,
    sanitize_metadata_key, unlink_outcome, value_entry_action, EntryKind, GetDecision, Index,
    Metadata, Shmap, ShmapError, ValueEntryAction, GRACE_MILLIS,
};

fn record(expiration: Option<u64>) -> Metadata {
    Metadata { key: "k".to_string(), expiration, encrypted: false }
}

#[test]
fn decision_absent_when_no_metadata() {
    assert_eq!(get_decision_at(None, 0), GetDecision::Absent);
    assert_eq!(read_decision(None), GetDecision::Absent);
}

#[test]
fn decision_live_without_expiration() {
    let m = record(None);
    assert_eq!(get_decision_at(Some(&m), u64::MAX), GetDecision::Live);
    assert_eq!(read_decision(Some(&m)), GetDecision::Live);
}

#[test]
fn decision_expires_strictly_after_instant() {
    let m = record(Some(100));
    assert_eq!(get_decision_at(Some(&m), 99), GetDecision::Live);
    assert_eq!(get_decision_at(Some(&m), 100), GetDecision::Live);
    assert_eq!(get_decision_at(Some(&m), 101), GetDecision::Expired);
}

#[test]
fn ttl_expiry_observed_through_clock() {
    // A record expiring one millisecond after creation is dead once the
    // clock has moved past it.
    let m = Metadata::new("k", Some(1), false).unwrap();
    let deadline = m.expiration.unwrap();
    while now_millis() <= deadline {
        std::hint::black_box(());
    }
    assert_eq!(read_decision(Some(&m)), GetDecision::Expired);
}

#[test]
fn classify_names() {
    assert_eq!(classify_entry_name(&sanitize_key("k")), EntryKind::Value);
    assert_eq!(classify_entry_name(&sanitize_metadata_key("k")), EntryKind::Metadata);
    assert_eq!(
        classify_entry_name(&lock_name_for(&sanitize_key("k"))),
        EntryKind::Lock
    );
    assert_eq!(classify_entry_name("somethingelse"), EntryKind::Foreign);
    assert_eq!(classify_entry_name("shmap.abc"), EntryKind::Value);
    assert_eq!(classify_entry_name("shmap.abc.metadata"), EntryKind::Metadata);
    assert_eq!(classify_entry_name("shmap.abc.lock"), EntryKind::Lock);
}

#[test]
fn sweep_removes_expired_pairs() {
    let lookup = Ok(Some(record(Some(10))));
    assert_eq!(
        value_entry_action(&lookup, 0, 11),
        ValueEntryAction::RemoveValueAndMetadata
    );
    assert_eq!(value_entry_action(&lookup, 0, 10), ValueEntryAction::KeepKey);
}

#[test]
fn sweep_keeps_unexpiring_records() {
    let lookup = Ok(Some(record(None)));
    assert_eq!(value_entry_action(&lookup, u64::MAX, u64::MAX), ValueEntryAction::KeepKey);
}

#[test]
fn sweep_heals_orphans_past_grace() {
    assert_eq!(
        value_entry_action(&Ok(None), GRACE_MILLIS + 1, 0),
        ValueEntryAction::RemoveValue
    );
    assert!(orphan_metadata_removal(false, GRACE_MILLIS + 1));
    assert!(orphan_lock_removal(false, false, GRACE_MILLIS + 1));
}

#[test]
fn sweep_spares_entries_within_grace() {
    assert_eq!(value_entry_action(&Ok(None), GRACE_MILLIS, 0), ValueEntryAction::Leave);
    assert!(!orphan_metadata_removal(false, GRACE_MILLIS));
    assert!(!orphan_lock_removal(false, false, GRACE_MILLIS));
}

#[test]
fn sweep_spares_entries_with_counterparts() {
    assert!(!orphan_metadata_removal(true, u64::MAX));
    assert!(!orphan_lock_removal(true, false, u64::MAX));
    assert!(!orphan_lock_removal(false, true, u64::MAX));
}

#[test]
fn sweep_never_removes_on_ambiguity() {
    let lookup: Result<Option<Metadata>, ShmapError> = Err(ShmapError::CodecDecodeError);
    assert_eq!(value_entry_action(&lookup, u64::MAX, u64::MAX), ValueEntryAction::Leave);
}

#[test]
fn unlink_is_idempotent() {
    assert!(unlink_outcome(true, false, 0).is_ok());
    assert!(unlink_outcome(false, true, 2).is_ok());
    assert_eq!(
        unlink_outcome(false, false, 13),
        Err(ShmapError::SegmentUnlinkFailed(13))
    );
}

#[test]
fn open_read_distinguishes_absence() {
    assert!(open_read_outcome(true, false, 0).is_ok());
    assert_eq!(
        open_read_outcome(false, true, 2),
        Err(ShmapError::SegmentNotFound)
    );
    assert_eq!(
        open_read_outcome(false, false, 13),
        Err(ShmapError::SegmentOpenFailed(13))
    );
}

#[test]
fn open_write_reports_each_step() {
    assert!(open_write_outcome(true, true, 0).is_ok());
    assert_eq!(
        open_write_outcome(false, false, 7),
        Err(ShmapError::SegmentOpenFailed(7))
    );
    assert_eq!(
        open_write_outcome(true, false, 9),
        Err(ShmapError::SegmentTruncateFailed(9))
    );
}

#[test]
fn prepare_insert_plain() {
    let shmap = Shmap::new();
    let plan = shmap.prepare_insert("abc", b"value bytes", None).unwrap();
    assert_eq!(plan.value_name, sanitize_key("abc"));
    assert_eq!(plan.metadata_name, sanitize_metadata_key("abc"));
    assert_eq!(plan.lock_name, lock_name_for(&sanitize_key("abc")));
    assert_eq!(plan.value_bytes, b"value bytes".to_vec());
    let md = shmap.decode_metadata_segment(&plan.metadata_bytes).unwrap().unwrap();
    assert_eq!(md.key, "abc");
    assert_eq!(md.expiration, None);
    assert!(!md.encrypted);
}

#[test]
fn prepare_insert_sealed_with_ttl() {
    let key = [7u8; 32];
    let shmap = Shmap::new_with_encryption(&key);
    let plan = shmap.prepare_insert("abc", b"value bytes", Some(30_000)).unwrap();
    assert_ne!(plan.value_bytes, b"value bytes".to_vec());
    assert_eq!(plan.value_bytes.len(), b"value bytes".len() + 28);
    assert_eq!(
        shmap.unseal(&plan.value_bytes).unwrap().unwrap(),
        b"value bytes".to_vec()
    );
    let md = shmap.decode_metadata_segment(&plan.metadata_bytes).unwrap().unwrap();
    assert_eq!(md.key, "abc");
    assert!(md.encrypted);
    assert!(md.expiration.unwrap() >= 30_000);
}

#[test]
fn prepare_insert_rejects_overflowing_ttl() {
    let shmap = Shmap::new();
    assert_eq!(
        shmap.prepare_insert("k", b"v", Some(u64::MAX)).unwrap_err(),
        ShmapError::TtlOutOfRange
    );
}

#[test]
fn expiration_refused_exactly_on_overflow() {
    assert_eq!(expiration_at(5, 10), Ok(15));
    assert_eq!(expiration_at(u64::MAX - 5, 5), Ok(u64::MAX));
    assert_eq!(expiration_at(u64::MAX - 5, 6), Err(ShmapError::TtlOutOfRange));
    assert_eq!(expiration_at(u64::MAX, 1), Err(ShmapError::TtlOutOfRange));
    assert_eq!(expiration_at(u64::MAX, 0), Ok(u64::MAX));
}

#[test]
fn index_mirrors_ttl() {
    let never = Index::new(None).unwrap();
    let _ = never;
    assert_eq!(
        Index::new(Some(u64::MAX)).unwrap_err(),
        ShmapError::TtlOutOfRange
    );
    let soon = Index::new(Some(1000));
    assert!(soon.is_ok());
}

#[test]
fn clock_reads_a_plausible_present() {
    // After 2020-01-01 and monotonicity-free sanity.
    let t = now_millis();
    assert!(t > 1_577_836_800_000);
}
