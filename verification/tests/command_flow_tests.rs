use grite::daemon::{bind_decision, bind_error, stale_socket_error, BindAction, route_after_creation, route_first_lookup, set_changes, RoutingStep, SetChange, WorkerSlot};
use grite::doctor::{repair_plan, RepairPlan};
use grite::error::{CliError, DaemonError};
use grite::indexing::{tally_decisions, IndexDecision};
use grite::locks::{check_lock, check_update_flags, LockCheckResult, LockConflict};
use grite::maintenance::db_check_outcome;
use grite::output::{daemon_reply_output, ReplyOutput};
use grite::router::{route_command, ExecutionMode, RouteResult};

#[test]
fn routing_follows_the_execution_mode() {
    assert_eq!(route_command(ExecutionMode::Local, 7, 5000), RouteResult::Local);
    assert_eq!(route_command(ExecutionMode::Daemon, 7, 5000), RouteResult::DaemonResponse);
    assert_eq!(
        route_command(ExecutionMode::Blocked, 4242, 61_000),
        RouteResult::Blocked { pid: 4242, expires_in_ms: 61_000 }
    );
}

fn conflict(resource: &str, owner: &str, remaining_ms: u64) -> LockConflict {
    LockConflict { resource: resource.to_string(), owner: owner.to_string(), remaining_ms }
}

#[test]
fn lock_policy_off_is_always_clear() {
    let found = LockCheckResult::Blocked(vec![conflict("issue:ab", "alice", 3000)]);
    assert!(matches!(check_lock(true, Ok(found)), Ok(LockCheckResult::Clear)));
}

#[test]
fn blocking_locks_refuse_the_write() {
    let found = LockCheckResult::Blocked(vec![
        conflict("issue:ab", "alice", 3000),
        conflict("repo:global", "bob", 61_500),
    ]);
    match check_lock(false, Ok(found)) {
        Err(CliError::Conflict(m)) => assert_eq!(
            m,
            "Blocked by lock policy: issue:ab (owned by alice, expires in 3s), repo:global (owned by bob, expires in 61s)"
        ),
        _ => panic!("a blocking lock must refuse the write as a conflict"),
    }
}

#[test]
fn warnings_and_clear_pass_through() {
    match check_lock(false, Ok(LockCheckResult::Warning(vec![conflict("issue:cd", "carol", 999)]))) {
        Ok(LockCheckResult::Warning(ws)) => {
            assert_eq!(ws.len(), 1);
            assert_eq!(ws[0].owner, "carol");
        }
        _ => panic!("warnings must pass through"),
    }
    assert!(matches!(check_lock(false, Ok(LockCheckResult::Clear)), Ok(LockCheckResult::Clear)));
}

#[test]
fn cli_update_needs_title_or_body() {
    assert_eq!(
        check_update_flags(&None, &None),
        Err(CliError::InvalidArgs("At least one of --title or --body must be provided".to_string()))
    );
    assert_eq!(check_update_flags(&Some("t".to_string()), &None), Ok(()));
    assert_eq!(check_update_flags(&None, &Some("b".to_string())), Ok(()));
}

#[test]
fn label_events_add_then_remove() {
    let add = vec!["bug".to_string(), "p1".to_string()];
    let remove = vec!["triage".to_string()];
    assert_eq!(
        set_changes(&add, &remove),
        vec![
            SetChange::Added("bug".to_string()),
            SetChange::Added("p1".to_string()),
            SetChange::Removed("triage".to_string()),
        ]
    );
    assert!(set_changes(&vec![], &vec![]).is_empty());
}

#[test]
fn index_tally_counts_every_file_once() {
    let ds = vec![IndexDecision::Index, IndexDecision::Skip, IndexDecision::Index, IndexDecision::Skip, IndexDecision::Skip];
    assert_eq!(tally_decisions(&ds), (2, 3));
    assert_eq!(tally_decisions(&vec![]), (0, 0));
}

#[test]
fn db_check_fails_exactly_when_unhealthy() {
    assert_eq!(db_check_outcome(true, 0), Ok(()));
    assert_eq!(db_check_outcome(false, 3), Err(CliError::Internal("3 corrupt events found".to_string())));
}

#[test]
fn doctor_repairs_only_with_fix() {
    assert_eq!(
        repair_plan(false, true, true, true),
        RepairPlan { pause_daemon: false, rebuild: false, merge_legacy: false }
    );
    assert_eq!(
        repair_plan(true, true, false, true),
        RepairPlan { pause_daemon: true, rebuild: false, merge_legacy: true }
    );
    assert_eq!(
        repair_plan(true, false, true, false),
        RepairPlan { pause_daemon: false, rebuild: true, merge_legacy: false }
    );
}

#[test]
fn daemon_replies_are_shown_by_their_first_known_key() {
    assert_eq!(daemon_reply_output(true, true, true, true, true), ReplyOutput::Nothing);
    assert_eq!(daemon_reply_output(false, false, true, true, true), ReplyOutput::Raw);
    assert_eq!(daemon_reply_output(false, true, true, true, true), ReplyOutput::IssueList);
    assert_eq!(daemon_reply_output(false, true, false, true, true), ReplyOutput::CreatedIssue);
    assert_eq!(daemon_reply_output(false, true, false, false, true), ReplyOutput::Rebuilt);
    assert_eq!(daemon_reply_output(false, true, false, false, false), ReplyOutput::Pretty);
}

#[test]
fn racing_worker_creations_install_one_worker() {
    // Three requests for one repository find no worker and each create one.
    let mut slot = WorkerSlot::Missing;
    let mut installed = 0;
    let mut answers = Vec::new();
    for _ in 0..3 {
        assert_eq!(route_first_lookup(WorkerSlot::Missing), RoutingStep::CreateWorker { remove_dead: false });
    }
    for _ in 0..3 {
        let step = route_after_creation(true, slot);
        if let RoutingStep::InstallAndSend { .. } = step {
            installed += 1;
            slot = WorkerSlot::Live;
        }
        answers.push(step);
    }
    assert_eq!(installed, 1);
    assert_eq!(
        answers,
        vec![
            RoutingStep::InstallAndSend { remove_dead: false },
            RoutingStep::SendToExisting,
            RoutingStep::SendToExisting,
        ]
    );
    assert_eq!(route_after_creation(true, WorkerSlot::Dead), RoutingStep::InstallAndSend { remove_dead: true });
    assert_eq!(route_after_creation(false, WorkerSlot::Missing), RoutingStep::Fail);
}

#[test]
fn lock_manager_failures_are_internal_errors() {
    assert_eq!(
        check_lock(false, Err("cannot open lock refs".to_string())).err(),
        Some(CliError::Internal("cannot open lock refs".to_string()))
    );
    assert!(matches!(check_lock(true, Err("ignored".to_string())), Ok(LockCheckResult::Clear)));
}

#[test]
fn supervisor_socket_is_taken_over_only_when_stale() {
    assert!(matches!(bind_decision("/tmp/g.sock", false, false), Ok(BindAction::Bind)));
    assert!(matches!(bind_decision("/tmp/g.sock", true, false), Ok(BindAction::RemoveStaleThenBind)));
    match bind_decision("/tmp/g.sock", true, true) {
        Err(DaemonError::BindFailed(m)) => assert_eq!(m, "Another supervisor is already listening on /tmp/g.sock"),
        _ => panic!("a live supervisor must refuse the bind"),
    }
    match stale_socket_error("/tmp/g.sock", "permission denied") {
        DaemonError::BindFailed(m) => assert_eq!(m, "Failed to remove stale socket /tmp/g.sock: permission denied"),
        _ => panic!("wrong error kind"),
    }
    match bind_error("/tmp/g.sock", "address in use") {
        DaemonError::BindFailed(m) => assert_eq!(m, "Failed to bind to /tmp/g.sock: address in use"),
        _ => panic!("wrong error kind"),
    }
}
