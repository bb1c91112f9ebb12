use grite::daemon_cli::{
    default_daemon_endpoint, format_timestamp, next_poll_delay, start_decision, status_lines,
    stop_message, stop_outcome, DaemonStatus, StartDecision, StopOutcome,
};
use grite::router::LockRead;

#[test]
fn daemon_endpoints() {
    assert_eq!(default_daemon_endpoint(Some("/run/user/1000"), Some(7)), "ipc:///run/user/1000/grite-daemon.sock");
    assert_eq!(default_daemon_endpoint(Some("/run/x"), None), "ipc:///run/x/grite-daemon.sock");
    assert_eq!(default_daemon_endpoint(None, Some(1000)), "ipc:///tmp/grite-daemon-1000.sock");
    assert_eq!(default_daemon_endpoint(None, None), "ipc:///tmp/grite-daemon.sock");
}

#[test]
fn poll_delays_double_up_to_half_a_second() {
    let mut d = 50;
    let mut seen = vec![];
    for _ in 0..6 {
        d = next_poll_delay(d);
        seen.push(d);
    }
    assert_eq!(seen, vec![100, 200, 400, 500, 500, 500]);
    assert_eq!(next_poll_delay(u64::MAX), 500);
}

#[test]
fn start_decisions() {
    let live = LockRead::Present { expired: false };
    assert_eq!(start_decision(live, true), StartDecision::AlreadyRunning);
    assert_eq!(start_decision(live, false), StartDecision::CleanAndSpawn);
    assert_eq!(start_decision(LockRead::Present { expired: true }, true), StartDecision::CleanAndSpawn);
    assert_eq!(start_decision(LockRead::Absent, false), StartDecision::Spawn);
    assert_eq!(start_decision(LockRead::Unreadable, false), StartDecision::Spawn);
}

#[test]
fn stop_outcomes() {
    assert_eq!(stop_outcome(false, true, true), StopOutcome::NotRunning);
    assert_eq!(stop_outcome(true, false, false), StopOutcome::Unreachable);
    assert_eq!(stop_outcome(true, true, true), StopOutcome::Stopped);
    assert_eq!(stop_outcome(true, true, false), StopOutcome::StoppedConnectionClosed);
    assert_eq!(stop_message(StopOutcome::Stopped), "Daemon stopped");
    assert_eq!(stop_message(StopOutcome::StoppedConnectionClosed), "Daemon stopped (connection closed)");
    assert_eq!(stop_message(StopOutcome::Unreachable), "Daemon not reachable (cleaned up stale lock)");
    assert_eq!(stop_message(StopOutcome::NotRunning), "Daemon is not running");
}

#[test]
fn timestamps_in_utc() {
    assert_eq!(format_timestamp(0), "1970-01-01 00:00:00 UTC");
    assert_eq!(format_timestamp(1_700_000_000_000), "2023-11-14 22:13:20 UTC");
    assert_eq!(format_timestamp(u64::MAX), "1969-12-31 23:59:59 UTC");
    assert_eq!(format_timestamp(9_000_000_000_000_000_000), "9000000000000000000ms");
}

#[test]
fn status_report() {
    assert_eq!(status_lines(&DaemonStatus::NotRunning), vec!["Daemon is not running"]);
    assert_eq!(status_lines(&DaemonStatus::Stale), vec!["Daemon lock expired (stale lock file)"]);
    let lines = status_lines(&DaemonStatus::Running {
        pid: 42,
        host_id: "host".to_string(),
        ipc_endpoint: "ipc:///tmp/x.sock".to_string(),
        started_ts: 0,
        remaining_ms: 29_999,
    });
    assert_eq!(
        lines,
        vec![
            "Daemon is running",
            "  PID:            42",
            "  Host ID:        host",
            "  IPC Endpoint:   ipc:///tmp/x.sock",
            "  Started:        1970-01-01 00:00:00 UTC",
            "  Expires in:     29s",
        ]
    );
}
