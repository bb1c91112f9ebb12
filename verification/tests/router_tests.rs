use grite::cli::{
    ActorCommand, AttachmentCommand, Command, DaemonCommand, DbCommand, ExportFormat,
    IssueCommand, LabelCommand, LockCommand, SnapshotCommand,
};
use grite::ipc::IpcCommand;
use grite::router::{
    attachment_path, blocked_message, cli_to_ipc_command, daemon_error_parts, error_kind_for_code,
    execution_mode_after_connect, execution_mode_step, should_route_through_daemon, ErrorKind,
    ExecutionMode, LockRead, ModeStep,
};

fn routable() -> Vec<Command> {
    vec![
        Command::Issue { cmd: IssueCommand::Show { id: "abc".to_string() } },
        Command::Db { cmd: DbCommand::Stats },
        Command::Export { format: ExportFormat::Md, since: None },
        Command::Rebuild,
        Command::Sync { remote: "origin".to_string(), pull: true, push: false },
        Command::Snapshot { cmd: SnapshotCommand::List },
    ]
}

fn local_only() -> Vec<Command> {
    vec![
        Command::Init,
        Command::Actor { cmd: ActorCommand::List },
        Command::Daemon { cmd: DaemonCommand::Status },
        Command::Lock { cmd: LockCommand::Status },
        Command::Doctor { fix: false },
    ]
}

#[test]
fn routable_commands_have_a_daemon_form() {
    for cmd in routable() {
        assert!(should_route_through_daemon(&cmd));
        assert!(cli_to_ipc_command(&cmd).is_some());
    }
}

#[test]
fn local_commands_stay_local() {
    for cmd in local_only() {
        assert!(!should_route_through_daemon(&cmd));
        assert!(cli_to_ipc_command(&cmd).is_none());
    }
    for cmd in [
        Command::Db { cmd: DbCommand::Check { verify_parents: true } },
        Command::Db { cmd: DbCommand::Verify { verbose: false } },
    ] {
        assert!(!should_route_through_daemon(&cmd));
        assert!(cli_to_ipc_command(&cmd).is_none());
    }
}

#[test]
fn label_commands_become_add_or_remove_lists() {
    let add = Command::Issue {
        cmd: IssueCommand::Label {
            cmd: LabelCommand::Add { id: "i1".to_string(), label: "bug".to_string(), lock: false },
        },
    };
    match cli_to_ipc_command(&add) {
        Some(IpcCommand::IssueLabel { issue_id, add, remove }) => {
            assert_eq!(issue_id, "i1");
            assert_eq!(add, vec!["bug".to_string()]);
            assert!(remove.is_empty());
        }
        other => panic!("unexpected {:?}", other),
    }
    let remove = Command::Issue {
        cmd: IssueCommand::Label {
            cmd: LabelCommand::Remove { id: "i1".to_string(), label: "bug".to_string(), lock: true },
        },
    };
    match cli_to_ipc_command(&remove) {
        Some(IpcCommand::IssueLabel { add, remove, .. }) => {
            assert!(add.is_empty());
            assert_eq!(remove, vec!["bug".to_string()]);
        }
        other => panic!("unexpected {:?}", other),
    }
}

#[test]
fn attachment_becomes_colon_separated_path() {
    let cmd = Command::Issue {
        cmd: IssueCommand::Attachment {
            cmd: AttachmentCommand::Add {
                id: "i2".to_string(),
                name: "a.txt".to_string(),
                sha256: "ff".to_string(),
                mime: "text/plain".to_string(),
                lock: false,
            },
        },
    };
    match cli_to_ipc_command(&cmd) {
        Some(IpcCommand::IssueAttach { issue_id, file_path }) => {
            assert_eq!(issue_id, "i2");
            assert_eq!(file_path, "a.txt:ff:text/plain");
        }
        other => panic!("unexpected {:?}", other),
    }
    assert_eq!(attachment_path("n", "h", "m"), "n:h:m");
}

#[test]
fn export_and_snapshot_forms() {
    match cli_to_ipc_command(&Command::Export { format: ExportFormat::Json, since: Some("5".to_string()) }) {
        Some(IpcCommand::Export { format, since }) => {
            assert_eq!(format, "json");
            assert_eq!(since, Some("5".to_string()));
        }
        other => panic!("unexpected {:?}", other),
    }
    match cli_to_ipc_command(&Command::Snapshot { cmd: SnapshotCommand::Gc { keep: 3 } }) {
        Some(IpcCommand::SnapshotGc { keep }) => assert_eq!(keep, 3),
        other => panic!("unexpected {:?}", other),
    }
}

#[test]
fn execution_mode_decisions() {
    let live = LockRead::Present { expired: false };
    assert_eq!(execution_mode_step(true, live), ModeStep::Decided(ExecutionMode::Local));
    assert_eq!(execution_mode_step(false, LockRead::Absent), ModeStep::Decided(ExecutionMode::Local));
    assert_eq!(execution_mode_step(false, LockRead::Unreadable), ModeStep::Decided(ExecutionMode::Local));
    assert_eq!(
        execution_mode_step(false, LockRead::Present { expired: true }),
        ModeStep::Decided(ExecutionMode::Local)
    );
    assert_eq!(execution_mode_step(false, live), ModeStep::Connect);
    assert_eq!(execution_mode_after_connect(true), ExecutionMode::Daemon);
    assert_eq!(execution_mode_after_connect(false), ExecutionMode::Blocked);
}

#[test]
fn blocked_message_rounds_down_to_seconds() {
    assert_eq!(
        blocked_message(4242, 59_999),
        "Data directory locked by daemon (PID 4242, expires in 59s). Use --no-daemon to wait or try later."
    );
}

#[test]
fn daemon_error_codes_map_to_kinds() {
    assert_eq!(error_kind_for_code("not_found"), ErrorKind::NotFound);
    assert_eq!(error_kind_for_code("invalid_input"), ErrorKind::InvalidArgs);
    assert_eq!(error_kind_for_code("invalid_args"), ErrorKind::InvalidArgs);
    assert_eq!(error_kind_for_code("conflict"), ErrorKind::Conflict);
    assert_eq!(error_kind_for_code("db_busy"), ErrorKind::DbBusy);
    assert_eq!(error_kind_for_code("ipc_error"), ErrorKind::Ipc);
    assert_eq!(error_kind_for_code("timeout"), ErrorKind::Internal);
    assert_eq!(daemon_error_parts(None), ("unknown".to_string(), "Unknown error".to_string()));
    assert_eq!(
        daemon_error_parts(Some(("conflict".to_string(), "x".to_string()))),
        ("conflict".to_string(), "x".to_string())
    );
}
