//! The command line's handling of the daemon: where it listens, how long to
//! wait for it, and what `start`, `status` and `stop` decide and print.

use vstd::prelude::*;
use vstd::string::*;
use crate::ipc::opt_view;
use crate::router::LockRead;
use crate::text::{decimal_chars, decimal_string};
use chrono::TimeZone;

verus! {

/// The endpoint a new daemon listens on: in the runtime directory when one
/// is set, else a per-user socket in `/tmp`, or a shared one there on a
/// platform without user ids (`uid` is `None`).
pub fn default_daemon_endpoint(runtime_dir: Option<&str>, uid: Option<u32>) -> (s: String)
    ensures
        runtime_dir matches Some(d) ==> s@ == "ipc://"@ + d@ + "/grite-daemon.sock"@,
        runtime_dir is None ==> (match uid {
            Some(u) => s@ == "ipc:///tmp/grite-daemon-"@ + decimal_chars(u as nat) + ".sock"@,
            None => s@ == "ipc:///tmp/grite-daemon.sock"@,
        }),
{
    match runtime_dir {
        Some(d) => {
            let mut s = String::from_str("ipc://");
            s.append(d);
            s.append("/grite-daemon.sock");
            s
        },
        None => match uid {
            Some(u) => {
                let mut s = String::from_str("ipc:///tmp/grite-daemon-");
                s.append(decimal_string(u as u64).as_str());
                s.append(".sock");
                s
            },
            None => String::from_str("ipc:///tmp/grite-daemon.sock"),
        },
    }
}

/// The longest pause between two attempts to reach a starting daemon.
pub const MAX_POLL_DELAY_MS: u64 = 500;

/// The pause before the next attempt: twice the last one, at most half a second.
pub fn next_poll_delay(delay_ms: u64) -> (r: u64)
    ensures
        r == (if 2 * delay_ms <= MAX_POLL_DELAY_MS {
            2 * delay_ms
        } else {
            MAX_POLL_DELAY_MS as int
        }),
{
    if delay_ms <= MAX_POLL_DELAY_MS / 2 {
        delay_ms * 2
    } else {
        MAX_POLL_DELAY_MS
    }
}

/// Waiting never pauses longer than the cap, and pauses never shrink below
/// the cap once reached.
pub proof fn lemma_poll_delay_bounded(delay_ms: u64)
    requires
        delay_ms <= MAX_POLL_DELAY_MS,
    ensures
        delay_ms <= (if 2 * delay_ms <= MAX_POLL_DELAY_MS {
            2 * delay_ms
        } else {
            MAX_POLL_DELAY_MS as int
        }) <= MAX_POLL_DELAY_MS,
{
}

/// What `daemon start` does once the lock file has been read and, for a
/// live lock, the daemon tried.
#[derive(Debug, Clone, Copy, PartialEq, Eq, Structural)]
pub enum StartDecision {
    /// A daemon answers: report it and start nothing.
    AlreadyRunning,
    /// Remove the stale lock file, then spawn a daemon.
    CleanAndSpawn,
    /// Spawn a daemon.
    Spawn,
}

/// A live lock whose daemon answers means nothing to do; any other lock
/// file is stale and removed before a new daemon is spawned.
pub fn start_decision(lock: LockRead, reachable: bool) -> (r: StartDecision)
    ensures
        r == (match lock {
            LockRead::Present { expired } => if !expired && reachable {
                StartDecision::AlreadyRunning
            } else {
                StartDecision::CleanAndSpawn
            },
            _ => StartDecision::Spawn,
        }),
{
    match lock {
        LockRead::Present { expired } => if !expired && reachable {
            StartDecision::AlreadyRunning
        } else {
            StartDecision::CleanAndSpawn
        },
        LockRead::Absent => StartDecision::Spawn,
        LockRead::Unreadable => StartDecision::Spawn,
    }
}

/// What `daemon stop` did.
#[derive(Debug, Clone, Copy, PartialEq, Eq, Structural)]
pub enum StopOutcome {
    /// The daemon took the stop command.
    Stopped,
    /// The connection closed before the daemon answered.
    StoppedConnectionClosed,
    /// The lock was live but the daemon did not answer; the lock was removed.
    Unreachable,
    /// No live lock.
    NotRunning,
}

/// The outcome of `daemon stop`: with no live lock there is nothing to stop;
/// with one, the daemon is asked to stop when it can be reached.
pub fn stop_outcome(lock_live: bool, connected: bool, sent: bool) -> (r: StopOutcome)
    ensures
        r == (if !lock_live {
            StopOutcome::NotRunning
        } else if !connected {
            StopOutcome::Unreachable
        } else if sent {
            StopOutcome::Stopped
        } else {
            StopOutcome::StoppedConnectionClosed
        }),
{
    if !lock_live {
        StopOutcome::NotRunning
    } else if !connected {
        StopOutcome::Unreachable
    } else if sent {
        StopOutcome::Stopped
    } else {
        StopOutcome::StoppedConnectionClosed
    }
}

/// The human-readable line for a stop outcome.
pub fn stop_message(outcome: StopOutcome) -> (r: &'static str)
    ensures
        outcome == StopOutcome::Stopped ==> r@ == "Daemon stopped"@,
        outcome == StopOutcome::StoppedConnectionClosed ==> r@ == "Daemon stopped (connection closed)"@,
        outcome == StopOutcome::Unreachable ==> r@ == "Daemon not reachable (cleaned up stale lock)"@,
        outcome == StopOutcome::NotRunning ==> r@ == "Daemon is not running"@,
{
    match outcome {
        StopOutcome::Stopped => "Daemon stopped",
        StopOutcome::StoppedConnectionClosed => "Daemon stopped (connection closed)",
        StopOutcome::Unreachable => "Daemon not reachable (cleaned up stale lock)",
        StopOutcome::NotRunning => "Daemon is not running",
    }
}

/// What chrono's UTC formatting (`Utc.timestamp_millis_opt` and
/// `%Y-%m-%d %H:%M:%S UTC`) gives for an instant in milliseconds; `None`
/// when chrono cannot represent it.
pub uninterp spec fn utc_millis_text(millis: i64) -> Option<Seq<char>>;

/// `chrono::Utc.timestamp_millis_opt(millis)`, formatted as
/// `%Y-%m-%d %H:%M:%S UTC` when it names a single instant.
#[verifier::external_body]
fn utc_timestamp_text(millis: i64) -> (r: Option<String>)
    ensures
        opt_view(r) == utc_millis_text(millis),
{
    match chrono::Utc.timestamp_millis_opt(millis) {
        chrono::LocalResult::Single(dt) => Some(dt.format("%Y-%m-%d %H:%M:%S UTC").to_string()),
        _ => None,
    }
}

/// The millisecond timestamp as the signed count chrono takes.
pub open spec fn as_millis_i64(ts_ms: u64) -> i64 {
    ts_ms as i64
}

/// A lock's start time for display: the UTC date and time, or the raw
/// milliseconds when chrono cannot represent it.
pub fn format_timestamp(ts_ms: u64) -> (s: String)
    ensures
        s@ == (match utc_millis_text(as_millis_i64(ts_ms)) {
            Some(t) => t,
            None => decimal_chars(ts_ms as nat) + "ms"@,
        }),
{
    #[verifier::truncate]
    let millis = ts_ms as i64;
    match utc_timestamp_text(millis) {
        Some(t) => t,
        None => {
            let mut s = decimal_string(ts_ms);
            s.append("ms");
            s
        },
    }
}

/// What the lock file says about the daemon, for `daemon status`.
pub enum DaemonStatus {
    NotRunning,
    Stale,
    Running { pid: u32, host_id: String, ipc_endpoint: String, started_ts: u64, remaining_ms: u64 },
}

/// The lines `daemon status` prints.
pub fn status_lines(status: &DaemonStatus) -> (r: Vec<String>)
    ensures
        *status is NotRunning ==> r@.len() == 1 && r@[0]@ == "Daemon is not running"@,
        *status is Stale ==> r@.len() == 1 && r@[0]@ == "Daemon lock expired (stale lock file)"@,
        *status matches DaemonStatus::Running { pid, host_id, ipc_endpoint, started_ts, remaining_ms } ==> {
            &&& r@.len() == 6
            &&& r@[0]@ == "Daemon is running"@
            &&& r@[1]@ == "  PID:            "@ + decimal_chars(pid as nat)
            &&& r@[2]@ == "  Host ID:        "@ + host_id@
            &&& r@[3]@ == "  IPC Endpoint:   "@ + ipc_endpoint@
            &&& r@[4]@ == "  Started:        "@ + (match utc_millis_text(as_millis_i64(started_ts)) {
                Some(t) => t,
                None => decimal_chars(started_ts as nat) + "ms"@,
            })
            &&& r@[5]@ == "  Expires in:     "@ + decimal_chars((remaining_ms / 1000) as nat) + "s"@
        },
{
    let mut r: Vec<String> = Vec::new();
    match status {
        DaemonStatus::NotRunning => {
            r.push(String::from_str("Daemon is not running"));
        },
        DaemonStatus::Stale => {
            r.push(String::from_str("Daemon lock expired (stale lock file)"));
        },
        DaemonStatus::Running { pid, host_id, ipc_endpoint, started_ts, remaining_ms } => {
            r.push(String::from_str("Daemon is running"));
            let mut l1 = String::from_str("  PID:            ");
            l1.append(decimal_string(*pid as u64).as_str());
            r.push(l1);
            let mut l2 = String::from_str("  Host ID:        ");
            l2.append(host_id.as_str());
            r.push(l2);
            let mut l3 = String::from_str("  IPC Endpoint:   ");
            l3.append(ipc_endpoint.as_str());
            r.push(l3);
            let mut l4 = String::from_str("  Started:        ");
            l4.append(format_timestamp(*started_ts).as_str());
            r.push(l4);
            let mut l5 = String::from_str("  Expires in:     ");
            l5.append(decimal_string(*remaining_ms / 1000).as_str());
            l5.append("s");
            r.push(l5);
        },
    }
    r
}

} // verus!
