use grite::daemon::{
    admit_connection, dependency_cycle_message, dep_list_direction, drain_step,
    drain_timeout_warning, invalid_actor_reply, invalid_dep_type_message, parse_dep_type,
    worker_action, DepType, DrainStep, WorkerAction, WorkerMessage, MAX_CONNECTIONS,
    check_update_args, classify_request, idle_timeout_reached, parse_attachment_path,
    parse_export_request, parse_issue_state, route_after_creation, route_first_lookup,
    version_mismatch_message, worker_reply_error, CommandError, ExportKind, IssueState,
    RequestDisposition, RoutingStep, WorkerReplyFailure, WorkerSlot,
};
use grite::ipc::IpcCommand;
use grite::router::attachment_path;

#[test]
fn version_is_checked_before_anything_else() {
    assert_eq!(
        classify_request(1, 2, &IpcCommand::DaemonStop),
        RequestDisposition::VersionMismatch { expected: 1, got: 2 }
    );
    assert_eq!(classify_request(1, 1, &IpcCommand::DaemonStop), RequestDisposition::Stop);
    assert_eq!(classify_request(1, 1, &IpcCommand::DaemonStatus), RequestDisposition::Status);
    assert_eq!(classify_request(1, 1, &IpcCommand::Rebuild), RequestDisposition::RouteToWorker);
    assert_eq!(version_mismatch_message(1, 7), "Expected version 1, got 7");
}

#[test]
fn idle_timeout() {
    assert!(!idle_timeout_reached(0, 1_000_000, None));
    assert!(idle_timeout_reached(1_000, 301_000, Some(300_000)));
    assert!(!idle_timeout_reached(1_000, 300_999, Some(300_000)));
    assert!(!idle_timeout_reached(5_000, 1_000, Some(1)));
    assert!(idle_timeout_reached(5_000, 1_000, Some(0)));
}

#[test]
fn worker_routing_steps() {
    assert_eq!(route_first_lookup(WorkerSlot::Live), RoutingStep::SendToExisting);
    assert_eq!(route_first_lookup(WorkerSlot::Dead), RoutingStep::CreateWorker { remove_dead: true });
    assert_eq!(route_first_lookup(WorkerSlot::Missing), RoutingStep::CreateWorker { remove_dead: false });
    assert_eq!(route_after_creation(true, WorkerSlot::Live), RoutingStep::SendToExisting);
    assert_eq!(route_after_creation(false, WorkerSlot::Live), RoutingStep::SendToExisting);
    assert_eq!(route_after_creation(true, WorkerSlot::Dead), RoutingStep::InstallAndSend { remove_dead: true });
    assert_eq!(route_after_creation(true, WorkerSlot::Missing), RoutingStep::InstallAndSend { remove_dead: false });
    assert_eq!(route_after_creation(false, WorkerSlot::Missing), RoutingStep::Fail);
}

#[test]
fn worker_reply_errors() {
    assert_eq!(
        worker_reply_error(WorkerReplyFailure::ChannelClosed),
        ("worker_unavailable".to_string(), "Worker channel closed".to_string())
    );
    assert_eq!(
        worker_reply_error(WorkerReplyFailure::ReplyDropped),
        ("worker_error".to_string(), "Worker response channel dropped".to_string())
    );
    assert_eq!(
        worker_reply_error(WorkerReplyFailure::TimedOut),
        ("timeout".to_string(), "Worker timed out".to_string())
    );
}

#[test]
fn issue_state_filter() {
    assert_eq!(parse_issue_state("closed"), IssueState::Closed);
    assert_eq!(parse_issue_state("open"), IssueState::Open);
    assert_eq!(parse_issue_state("Closed"), IssueState::Open);
}

#[test]
fn update_needs_title_or_body() {
    assert!(check_update_args(&Some("t".to_string()), &None).is_ok());
    assert!(check_update_args(&None, &Some("b".to_string())).is_ok());
    match check_update_args(&None, &None) {
        Err(CommandError::InvalidArgs(m)) => {
            assert_eq!(m, "At least one of title or body must be provided")
        }
        Ok(()) => panic!("empty update accepted"),
    }
}

#[test]
fn export_requests() {
    match parse_export_request("json", &Some("123".to_string())) {
        Ok((k, t)) => {
            assert_eq!(k, ExportKind::Json);
            assert_eq!(t, Some(123));
        }
        Err(e) => panic!("{:?}", e),
    }
    match parse_export_request("markdown", &Some("abc".to_string())) {
        Ok((k, t)) => {
            assert_eq!(k, ExportKind::Markdown);
            assert_eq!(t, None);
        }
        Err(e) => panic!("{:?}", e),
    }
    assert!(matches!(parse_export_request("md", &None), Ok((ExportKind::Markdown, None))));
    match parse_export_request("csv", &None) {
        Err(CommandError::InvalidArgs(m)) => assert_eq!(m, "Unknown format: csv"),
        other => panic!("{:?}", other),
    }
}

#[test]
fn attachment_path_round_trip() {
    let sha: Vec<u8> = (0u8..32).collect();
    let hex: String = sha.iter().map(|b| format!("{:02x}", b)).collect();
    let path = attachment_path("report.pdf", &hex, "application/pdf");
    match parse_attachment_path(&path) {
        Ok(a) => {
            assert_eq!(a.name, "report.pdf");
            assert_eq!(a.sha256, sha);
            assert_eq!(a.mime, "application/pdf");
        }
        Err(e) => panic!("{:?}", e),
    }
}

#[test]
fn attachment_mime_may_hold_colons() {
    let hex = "ab".repeat(32);
    match parse_attachment_path(&format!("n:{}:x:y", hex)) {
        Ok(a) => assert_eq!(a.mime, "x:y"),
        Err(e) => panic!("{:?}", e),
    }
}

#[test]
fn attachment_errors() {
    match parse_attachment_path("no-colons-here") {
        Err(CommandError::InvalidArgs(m)) => {
            assert_eq!(m, "file_path must be in format 'name:sha256:mime'")
        }
        Ok(_) => panic!("accepted"),
    }
    match parse_attachment_path("a:b") {
        Err(CommandError::InvalidArgs(m)) => {
            assert_eq!(m, "file_path must be in format 'name:sha256:mime'")
        }
        Ok(_) => panic!("accepted"),
    }
    match parse_attachment_path("a:abc:text/plain") {
        Err(CommandError::InvalidArgs(m)) => assert_eq!(m, "Odd number of digits"),
        Ok(_) => panic!("accepted"),
    }
    match parse_attachment_path("a:abcd:text/plain") {
        Err(CommandError::InvalidArgs(m)) => assert_eq!(m, "Invalid string length"),
        Ok(_) => panic!("accepted"),
    }
    match parse_attachment_path("a:zz:text/plain") {
        Err(CommandError::InvalidArgs(m)) => assert_eq!(m, "Invalid character 'z' at position 0"),
        Ok(_) => panic!("accepted"),
    }
}

#[test]
fn worker_messages() {
    assert_eq!(worker_action(WorkerMessage::Command { actor_id_valid: true }), WorkerAction::Execute);
    assert_eq!(worker_action(WorkerMessage::Command { actor_id_valid: false }), WorkerAction::RejectActor);
    assert_eq!(worker_action(WorkerMessage::Heartbeat), WorkerAction::RefreshLock);
    assert_eq!(worker_action(WorkerMessage::Shutdown), WorkerAction::Stop);
    assert_eq!(
        invalid_actor_reply("Odd number of digits"),
        ("invalid_actor".to_string(), "Invalid actor ID: Odd number of digits".to_string())
    );
}

#[test]
fn draining_and_admission() {
    assert_eq!(drain_step(0, 10, 5), DrainStep::Done);
    assert_eq!(drain_step(2, 4, 5), DrainStep::Wait);
    assert_eq!(drain_step(2, 5, 5), DrainStep::GiveUp);
    assert_eq!(drain_timeout_warning(3), "Timed out waiting for 3 in-flight commands");
    assert!(admit_connection(0));
    assert!(admit_connection(MAX_CONNECTIONS - 1));
    assert!(!admit_connection(MAX_CONNECTIONS));
}

#[test]
fn dependency_types() {
    assert_eq!(parse_dep_type("blocks").unwrap(), DepType::Blocks);
    assert_eq!(parse_dep_type("depends_on").unwrap(), DepType::DependsOn);
    assert_eq!(parse_dep_type("related_to").unwrap(), DepType::RelatedTo);
    match parse_dep_type("parent") {
        Err(CommandError::InvalidArgs(m)) => assert_eq!(
            m,
            "Invalid dependency type 'parent'. Valid types: blocks, depends_on, related_to"
        ),
        other => panic!("{:?}", other),
    }
    assert_eq!(DepType::DependsOn.as_str(), "depends_on");
    assert_eq!(invalid_dep_type_message("x"), "Invalid dep type: x");
    assert_eq!(
        dependency_cycle_message(DepType::Blocks),
        "Adding this dependency would create a cycle in the blocks graph"
    );
    assert_eq!(dep_list_direction(true), "dependents");
    assert_eq!(dep_list_direction(false), "dependencies");
}
