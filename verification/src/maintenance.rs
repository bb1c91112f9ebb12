//! Store maintenance commands: rebuild, snapshots and integrity reports.

use vstd::prelude::*;
use vstd::string::*;
use crate::codec::{hex_encode, hex_lower};
use crate::error::CliError;
use crate::router::{ErrorKind, ExecutionMode};
use crate::text::{decimal_chars, decimal_string};

verus! {

/// How a rebuild runs.
#[derive(Debug, Clone, Copy, PartialEq, Eq, Structural)]
pub enum RebuildRoute {
    /// Through the daemon, which holds the store.
    ViaDaemon,
    /// Refused: another process holds the store's lock.
    Refused,
    /// In this process.
    Local,
}

/// A rebuild goes through the daemon when one answers, is refused when a
/// daemon holds the lock without answering, and runs here otherwise.
pub fn rebuild_route(mode: ExecutionMode) -> (r: RebuildRoute)
    ensures
        r == (match mode {
            ExecutionMode::Daemon => RebuildRoute::ViaDaemon,
            ExecutionMode::Blocked => RebuildRoute::Refused,
            ExecutionMode::Local => RebuildRoute::Local,
        }),
{
    match mode {
        ExecutionMode::Daemon => RebuildRoute::ViaDaemon,
        ExecutionMode::Blocked => RebuildRoute::Refused,
        ExecutionMode::Local => RebuildRoute::Local,
    }
}

/// The refusal when another process holds the store's lock.
pub fn store_locked_message(pid: u32, remaining_ms: u64) -> (s: String)
    ensures
        s@ == "Store is locked by pid "@ + decimal_chars(pid as nat) + " (expires in "@ + decimal_chars(
            (remaining_ms / 1000) as nat,
        ) + "s). Try again later or run 'grite daemon stop' first."@,
{
    let mut s = String::from_str("Store is locked by pid ");
    s.append(decimal_string(pid as u64).as_str());
    s.append(" (expires in ");
    s.append(decimal_string(remaining_ms / 1000).as_str());
    s.append("s). Try again later or run 'grite daemon stop' first.");
    s
}

/// The failure reported when the daemon refuses a rebuild.
pub fn daemon_rebuild_failure(message: Option<&str>) -> (s: String)
    ensures
        message matches Some(m) ==> s@ == "Daemon rebuild failed: "@ + m@,
        message is None ==> s@ == "Daemon rebuild failed: unknown error"@,
{
    match message {
        Some(m) => {
            let mut s = String::from_str("Daemon rebuild failed: ");
            s.append(m);
            s
        },
        None => String::from_str("Daemon rebuild failed: unknown error"),
    }
}

/// Where a local rebuild reads its events from.
#[derive(Debug, Clone, Copy, PartialEq, Eq, Structural)]
pub enum RebuildSource {
    /// Replay the store's own events.
    Store,
    /// Start from the newest snapshot (the first listed).
    LatestSnapshot,
    /// Snapshots were asked for but there are none: replay the store.
    NoSnapshotFallback,
}

/// The snapshot list is newest first, so a snapshot rebuild starts from the
/// first entry; without snapshots it falls back to a full rebuild.
pub fn rebuild_source(use_snapshot: bool, snapshot_count: usize) -> (r: RebuildSource)
    ensures
        r == (if !use_snapshot {
            RebuildSource::Store
        } else if snapshot_count == 0 {
            RebuildSource::NoSnapshotFallback
        } else {
            RebuildSource::LatestSnapshot
        }),
{
    if !use_snapshot {
        RebuildSource::Store
    } else if snapshot_count == 0 {
        RebuildSource::NoSnapshotFallback
    } else {
        RebuildSource::LatestSnapshot
    }
}

/// Why a snapshot cannot be taken.
#[derive(Debug, Clone, Copy, PartialEq, Eq, Structural)]
pub enum SnapshotRefusal {
    /// The log has no commits yet.
    NoWalCommits,
    /// The log holds no events.
    NoEvents,
}

/// A snapshot needs a log head and at least one event.
pub fn check_snapshot_source(has_head: bool, event_count: usize) -> (r: Result<(), SnapshotRefusal>)
    ensures
        !has_head ==> r == Err::<(), SnapshotRefusal>(SnapshotRefusal::NoWalCommits),
        has_head && event_count == 0 ==> r == Err::<(), SnapshotRefusal>(SnapshotRefusal::NoEvents),
        has_head && event_count > 0 ==> r is Ok,
{
    if !has_head {
        Err(SnapshotRefusal::NoWalCommits)
    } else if event_count == 0 {
        Err(SnapshotRefusal::NoEvents)
    } else {
        Ok(())
    }
}

impl SnapshotRefusal {
    /// The error kind and message reported for the refusal.
    pub fn report(&self) -> (r: (ErrorKind, &'static str))
        ensures
            *self == SnapshotRefusal::NoWalCommits ==> r.0 == ErrorKind::NotFound && r.1@
                == "No WAL commits found"@,
            *self == SnapshotRefusal::NoEvents ==> r.0 == ErrorKind::InvalidArgs && r.1@
                == "No events to snapshot"@,
    {
        match self {
            SnapshotRefusal::NoWalCommits => (ErrorKind::NotFound, "No WAL commits found"),
            SnapshotRefusal::NoEvents => (ErrorKind::InvalidArgs, "No events to snapshot"),
        }
    }
}

/// How a corrupt event is corrupt.
pub enum CorruptionKind {
    /// The stored id does not match the hash of the event.
    HashMismatch { expected: Vec<u8>, computed: Vec<u8> },
    /// A parent the event names is missing.
    MissingParent { parent_id: Vec<u8> },
}

/// The text reported for a corrupt event, ids in lowercase hex.
pub fn corruption_text(kind: &CorruptionKind) -> (s: String)
    ensures
        kind matches CorruptionKind::HashMismatch { expected, computed } ==> s@ == "hash mismatch: expected "@
            + hex_lower(expected@) + ", computed "@ + hex_lower(computed@),
        kind matches CorruptionKind::MissingParent { parent_id } ==> s@ == "missing parent: "@ + hex_lower(
            parent_id@,
        ),
{
    match kind {
        CorruptionKind::HashMismatch { expected, computed } => {
            let mut s = String::from_str("hash mismatch: expected ");
            s.append(hex_encode(expected.as_slice()).as_str());
            s.append(", computed ");
            s.append(hex_encode(computed.as_slice()).as_str());
            s
        },
        CorruptionKind::MissingParent { parent_id } => {
            let mut s = String::from_str("missing parent: ");
            s.append(hex_encode(parent_id.as_slice()).as_str());
            s
        },
    }
}

/// The failure reported when the integrity check found corrupt events.
pub fn corrupt_events_message(count: u64) -> (s: String)
    ensures
        s@ == decimal_chars(count as nat) + " corrupt events found"@,
{
    let mut s = decimal_string(count);
    s.append(" corrupt events found");
    s
}

/// The outcome of `db check` once its report has been printed: success
/// exactly when the store is healthy, else the count of corrupt events.
pub fn db_check_outcome(healthy: bool, corrupt_count: u64) -> (r: Result<(), CliError>)
    ensures
        r is Ok <==> healthy,
        r is Err ==> (r matches Err(CliError::Internal(m)) && m@ == decimal_chars(corrupt_count as nat)
            + " corrupt events found"@),
{
    if !healthy {
        return Err(CliError::Internal(corrupt_events_message(corrupt_count)));
    }
    Ok(())
}

/// How many signature errors are listed: all of them when verbose, else at most ten.
pub fn listed_signature_errors(total: usize, verbose: bool) -> (r: usize)
    ensures
        r == (if verbose || total <= 10 {
            total
        } else {
            10
        }),
{
    if verbose || total <= 10 {
        total
    } else {
        10
    }
}

/// The warning printed when signatures failed to verify.
pub fn signature_warning(count: u64) -> (s: String)
    ensures
        s@ == "Warning: "@ + decimal_chars(count as nat) + " signature errors found"@,
{
    let mut s = String::from_str("Warning: ");
    s.append(decimal_string(count).as_str());
    s.append(" signature errors found");
    s
}

} // verus!
