use grite::persist::{insert_outcome, needs_wal_append};
use grite::maintenance::{
    check_snapshot_source, corrupt_events_message, corruption_text, daemon_rebuild_failure,
    listed_signature_errors, rebuild_route, rebuild_source, signature_warning,
    store_locked_message, CorruptionKind, RebuildRoute, RebuildSource, SnapshotRefusal,
};
use grite::router::{ErrorKind, ExecutionMode};

#[test]
fn rebuild_routes_and_sources() {
    assert_eq!(rebuild_route(ExecutionMode::Daemon), RebuildRoute::ViaDaemon);
    assert_eq!(rebuild_route(ExecutionMode::Blocked), RebuildRoute::Refused);
    assert_eq!(rebuild_route(ExecutionMode::Local), RebuildRoute::Local);
    assert_eq!(rebuild_source(false, 3), RebuildSource::Store);
    assert_eq!(rebuild_source(true, 0), RebuildSource::NoSnapshotFallback);
    assert_eq!(rebuild_source(true, 2), RebuildSource::LatestSnapshot);
}

#[test]
fn rebuild_messages() {
    assert_eq!(
        store_locked_message(77, 12_345),
        "Store is locked by pid 77 (expires in 12s). Try again later or run 'grite daemon stop' first."
    );
    assert_eq!(daemon_rebuild_failure(Some("busy")), "Daemon rebuild failed: busy");
    assert_eq!(daemon_rebuild_failure(None), "Daemon rebuild failed: unknown error");
}

#[test]
fn snapshot_preconditions() {
    assert_eq!(check_snapshot_source(false, 5), Err(SnapshotRefusal::NoWalCommits));
    assert_eq!(check_snapshot_source(true, 0), Err(SnapshotRefusal::NoEvents));
    assert_eq!(check_snapshot_source(true, 1), Ok(()));
    assert_eq!(SnapshotRefusal::NoWalCommits.report(), (ErrorKind::NotFound, "No WAL commits found"));
    assert_eq!(SnapshotRefusal::NoEvents.report(), (ErrorKind::InvalidArgs, "No events to snapshot"));
}

#[test]
fn integrity_texts() {
    let k = CorruptionKind::HashMismatch { expected: vec![0xab, 0x01], computed: vec![0xff] };
    assert_eq!(corruption_text(&k), "hash mismatch: expected ab01, computed ff");
    let k = CorruptionKind::MissingParent { parent_id: vec![0x0c] };
    assert_eq!(corruption_text(&k), "missing parent: 0c");
    assert_eq!(corrupt_events_message(3), "3 corrupt events found");
    assert_eq!(signature_warning(2), "Warning: 2 signature errors found");
    assert_eq!(listed_signature_errors(25, false), 10);
    assert_eq!(listed_signature_errors(25, true), 25);
    assert_eq!(listed_signature_errors(4, false), 4);
}

#[test]
fn event_persistence_reports() {
    let (r, w) = insert_outcome(Ok("abc123".to_string()));
    assert_eq!(r.wal_head, Some("abc123".to_string()));
    assert!(w.is_none());
    let (r, w) = insert_outcome(Err("locked".to_string()));
    assert!(r.wal_head.is_none());
    assert_eq!(w, Some("Warning: Failed to append to WAL: locked".to_string()));
    assert!(!needs_wal_append(0));
    assert!(needs_wal_append(2));
}
