//! Which commands go through the daemon, and what they become there.

use vstd::prelude::*;
use vstd::string::*;
use crate::cli::{
    AssigneeCommand, AttachmentCommand, Command, DbCommand, ExportFormat, IssueCommand,
    LabelCommand, LinkCommand, SnapshotCommand,
};
use crate::ipc::{clone_opt, clone_strings, opt_view, strings_view, IpcCommand, IpcCommandView};
use crate::text::{decimal_chars, decimal_string, same_text};

verus! {

/// Whether a command may be routed through the daemon.
pub open spec fn spec_should_route(cmd: Command) -> bool {
    match cmd {
        Command::Init => false,
        Command::Actor { .. } => false,
        Command::Daemon { .. } => false,
        Command::Lock { .. } => false,
        Command::Db { cmd } => cmd is Stats,
        Command::Doctor { .. } => false,
        Command::Issue { .. } => true,
        Command::Export { .. } => true,
        Command::Rebuild => true,
        Command::Sync { .. } => true,
        Command::Snapshot { .. } => true,
    }
}

/// Check if a command should use daemon routing.
///
/// Some commands (like init, actor management) always run locally.
pub fn should_route_through_daemon(cmd: &Command) -> (r: bool)
    ensures
        r == spec_should_route(*cmd),
{
    match cmd {
        // Always local - these manage the setup itself
        Command::Init => false,
        Command::Actor { .. } => false,
        // Daemon and lock commands are handled specially
        Command::Daemon { .. } => false,
        Command::Lock { .. } => false,
        // Db commands: stats can route, check/verify are local-only
        Command::Db { cmd: db_cmd } => match db_cmd {
            DbCommand::Stats => true,
            DbCommand::Check { .. } => false,
            DbCommand::Verify { .. } => false,
        },
        // Doctor is local-only (health checks)
        Command::Doctor { .. } => false,
        // These can be routed through daemon
        Command::Issue { .. } => true,
        Command::Export { .. } => true,
        Command::Rebuild => true,
        Command::Sync { .. } => true,
        Command::Snapshot { .. } => true,
    }
}

/// The `name:sha256:mime` text that carries an attachment to the daemon.
pub open spec fn attachment_path_chars(name: Seq<char>, sha256: Seq<char>, mime: Seq<char>) -> Seq<char> {
    name + ":"@ + sha256 + ":"@ + mime
}

/// `format!("{}:{}:{}", name, sha256, mime)`.
pub fn attachment_path(name: &str, sha256: &str, mime: &str) -> (s: String)
    ensures
        s@ == attachment_path_chars(name@, sha256@, mime@),
{
    let mut s = String::from_str(name);
    s.append(":");
    s.append(sha256);
    s.append(":");
    s.append(mime);
    s
}

pub open spec fn one(s: Seq<char>) -> Seq<Seq<char>> {
    seq![s]
}

pub open spec fn none_of() -> Seq<Seq<char>> {
    Seq::empty()
}

/// The daemon command for an issue command.
pub open spec fn spec_issue_to_ipc(cmd: IssueCommand) -> IpcCommandView {
    match cmd {
        IssueCommand::Create { title, body, label } => IpcCommandView::IssueCreate {
            title: title@,
            body: body@,
            labels: strings_view(label),
        },
        IssueCommand::List { state, label } => IpcCommandView::IssueList {
            state: opt_view(state),
            label: opt_view(label),
        },
        IssueCommand::Show { id } => IpcCommandView::IssueShow { issue_id: id@ },
        IssueCommand::Update { id, title, body, .. } => IpcCommandView::IssueUpdate {
            issue_id: id@,
            title: opt_view(title),
            body: opt_view(body),
        },
        IssueCommand::Comment { id, body, .. } => IpcCommandView::IssueComment { issue_id: id@, body: body@ },
        IssueCommand::Close { id, .. } => IpcCommandView::IssueClose { issue_id: id@ },
        IssueCommand::Reopen { id, .. } => IpcCommandView::IssueReopen { issue_id: id@ },
        IssueCommand::Label { cmd } => match cmd {
            LabelCommand::Add { id, label, .. } => IpcCommandView::IssueLabel {
                issue_id: id@,
                add: one(label@),
                remove: none_of(),
            },
            LabelCommand::Remove { id, label, .. } => IpcCommandView::IssueLabel {
                issue_id: id@,
                add: none_of(),
                remove: one(label@),
            },
        },
        IssueCommand::Assignee { cmd } => match cmd {
            AssigneeCommand::Add { id, user, .. } => IpcCommandView::IssueAssign {
                issue_id: id@,
                add: one(user@),
                remove: none_of(),
            },
            AssigneeCommand::Remove { id, user, .. } => IpcCommandView::IssueAssign {
                issue_id: id@,
                add: none_of(),
                remove: one(user@),
            },
        },
        IssueCommand::Link { cmd } => match cmd {
            LinkCommand::Add { id, url, note, .. } => IpcCommandView::IssueLink {
                issue_id: id@,
                url: url@,
                note: opt_view(note),
            },
        },
        IssueCommand::Attachment { cmd } => match cmd {
            AttachmentCommand::Add { id, name, sha256, mime, .. } => IpcCommandView::IssueAttach {
                issue_id: id@,
                file_path: attachment_path_chars(name@, sha256@, mime@),
            },
        },
    }
}

/// The daemon command for a CLI command, or none for commands that only run locally.
pub open spec fn spec_cli_to_ipc(cmd: Command) -> Option<IpcCommandView> {
    match cmd {
        Command::Issue { cmd } => Some(spec_issue_to_ipc(cmd)),
        Command::Db { cmd } => if cmd is Stats {
            Some(IpcCommandView::DbStats)
        } else {
            None
        },
        Command::Export { format, since } => Some(IpcCommandView::Export {
            format: match format {
                ExportFormat::Json => "json"@,
                ExportFormat::Md => "md"@,
            },
            since: opt_view(since),
        }),
        Command::Rebuild => Some(IpcCommandView::Rebuild),
        Command::Sync { remote, pull, push } => Some(IpcCommandView::Sync { remote: remote@, pull, push }),
        Command::Snapshot { cmd } => Some(
            match cmd {
                SnapshotCommand::Create => IpcCommandView::SnapshotCreate,
                SnapshotCommand::List => IpcCommandView::SnapshotList,
                SnapshotCommand::Gc { keep } => IpcCommandView::SnapshotGc { keep: keep as u32 },
            },
        ),
        _ => None,
    }
}

pub open spec fn opt_ipc_view(o: Option<IpcCommand>) -> Option<IpcCommandView> {
    match o {
        Some(c) => Some(c@),
        None => None,
    }
}

fn vec_of_one(s: &String) -> (v: Vec<String>)
    ensures
        strings_view(v) == one(s@),
{
    let v = vec![s.clone()];
    proof {
        assert(strings_view(v) =~= one(s@));
    }
    v
}

fn vec_empty() -> (v: Vec<String>)
    ensures
        strings_view(v) == none_of(),
{
    let v: Vec<String> = Vec::new();
    proof {
        assert(strings_view(v) =~= none_of());
    }
    v
}

fn issue_to_ipc(cmd: &IssueCommand) -> (r: IpcCommand)
    ensures
        r@ == spec_issue_to_ipc(*cmd),
{
    match cmd {
        IssueCommand::Create { title, body, label } => IpcCommand::IssueCreate {
            title: title.clone(),
            body: body.clone(),
            labels: clone_strings(label),
        },
        IssueCommand::List { state, label } => IpcCommand::IssueList {
            state: clone_opt(state),
            label: clone_opt(label),
        },
        IssueCommand::Show { id } => IpcCommand::IssueShow { issue_id: id.clone() },
        IssueCommand::Update { id, title, body, .. } => IpcCommand::IssueUpdate {
            issue_id: id.clone(),
            title: clone_opt(title),
            body: clone_opt(body),
        },
        IssueCommand::Comment { id, body, .. } => IpcCommand::IssueComment {
            issue_id: id.clone(),
            body: body.clone(),
        },
        IssueCommand::Close { id, .. } => IpcCommand::IssueClose { issue_id: id.clone() },
        IssueCommand::Reopen { id, .. } => IpcCommand::IssueReopen { issue_id: id.clone() },
        IssueCommand::Label { cmd: label_cmd } => match label_cmd {
            LabelCommand::Add { id, label, .. } => IpcCommand::IssueLabel {
                issue_id: id.clone(),
                add: vec_of_one(label),
                remove: vec_empty(),
            },
            LabelCommand::Remove { id, label, .. } => IpcCommand::IssueLabel {
                issue_id: id.clone(),
                add: vec_empty(),
                remove: vec_of_one(label),
            },
        },
        IssueCommand::Assignee { cmd: assign_cmd } => match assign_cmd {
            AssigneeCommand::Add { id, user, .. } => IpcCommand::IssueAssign {
                issue_id: id.clone(),
                add: vec_of_one(user),
                remove: vec_empty(),
            },
            AssigneeCommand::Remove { id, user, .. } => IpcCommand::IssueAssign {
                issue_id: id.clone(),
                add: vec_empty(),
                remove: vec_of_one(user),
            },
        },
        IssueCommand::Link { cmd: link_cmd } => match link_cmd {
            LinkCommand::Add { id, url, note, .. } => IpcCommand::IssueLink {
                issue_id: id.clone(),
                url: url.clone(),
                note: clone_opt(note),
            },
        },
        IssueCommand::Attachment { cmd: attach_cmd } => match attach_cmd {
            AttachmentCommand::Add { id, name, sha256, mime, .. } => IpcCommand::IssueAttach {
                issue_id: id.clone(),
                file_path: attachment_path(name.as_str(), sha256.as_str(), mime.as_str()),
            },
        },
    }
}

fn db_to_ipc(cmd: &DbCommand) -> (r: IpcCommand)
    requires
        *cmd is Stats,
    ensures
        r@ == IpcCommandView::DbStats,
{
    IpcCommand::DbStats
}

fn snapshot_to_ipc(cmd: &SnapshotCommand) -> (r: IpcCommand)
    ensures
        r@ == (match *cmd {
            SnapshotCommand::Create => IpcCommandView::SnapshotCreate,
            SnapshotCommand::List => IpcCommandView::SnapshotList,
            SnapshotCommand::Gc { keep } => IpcCommandView::SnapshotGc { keep: keep as u32 },
        }),
{
    match cmd {
        SnapshotCommand::Create => IpcCommand::SnapshotCreate,
        SnapshotCommand::List => IpcCommand::SnapshotList,
        SnapshotCommand::Gc { keep } => IpcCommand::SnapshotGc { keep: *keep as u32 },
    }
}

/// Convert a CLI command to a daemon command; `None` for commands that
/// always run locally, among them the database check and verification.
pub fn cli_to_ipc_command(cmd: &Command) -> (r: Option<IpcCommand>)
    ensures
        opt_ipc_view(r) == spec_cli_to_ipc(*cmd),
        r is None <==> !spec_should_route(*cmd),
{
    match cmd {
        Command::Issue { cmd: issue_cmd } => Some(issue_to_ipc(issue_cmd)),
        Command::Db { cmd: db_cmd } => match db_cmd {
            DbCommand::Stats => Some(db_to_ipc(db_cmd)),
            DbCommand::Check { .. } => None,
            DbCommand::Verify { .. } => None,
        },
        Command::Export { format, since } => Some(
            IpcCommand::Export {
                format: match format {
                    ExportFormat::Json => String::from_str("json"),
                    ExportFormat::Md => String::from_str("md"),
                },
                since: clone_opt(since),
            },
        ),
        Command::Rebuild => Some(IpcCommand::Rebuild),
        Command::Sync { remote, pull, push } => Some(
            IpcCommand::Sync { remote: remote.clone(), pull: *pull, push: *push },
        ),
        Command::Snapshot { cmd: snap_cmd } => Some(snapshot_to_ipc(snap_cmd)),
        Command::Init
        | Command::Actor { .. }
        | Command::Daemon { .. }
        | Command::Lock { .. }
        | Command::Doctor { .. } => None,
    }
}

/// A command has a daemon form exactly when it may go through the daemon.
pub proof fn lemma_routed_commands_convert(cmd: Command)
    ensures
        spec_should_route(cmd) <==> spec_cli_to_ipc(cmd) is Some,
{
}

/// Each issue subcommand goes to the daemon as the command of the same
/// kind, on the same issue and with the same values: closing closes,
/// reopening reopens, a label or assignee is added or removed as asked, and
/// so on for every subcommand.
pub proof fn lemma_issue_commands_keep_their_kind(
    id: String,
    text: String,
    other: String,
    maybe: Option<String>,
    maybe_other: Option<String>,
    labels: Vec<String>,
    lock: bool,
)
    ensures
        spec_cli_to_ipc(Command::Issue { cmd: IssueCommand::Close { id, lock } }) == Some(
            IpcCommandView::IssueClose { issue_id: id@ },
        ),
        spec_cli_to_ipc(Command::Issue { cmd: IssueCommand::Reopen { id, lock } }) == Some(
            IpcCommandView::IssueReopen { issue_id: id@ },
        ),
        spec_cli_to_ipc(Command::Issue { cmd: IssueCommand::Show { id } }) == Some(
            IpcCommandView::IssueShow { issue_id: id@ },
        ),
        spec_cli_to_ipc(Command::Issue { cmd: IssueCommand::Comment { id, body: text, lock } })
            == Some(IpcCommandView::IssueComment { issue_id: id@, body: text@ }),
        spec_cli_to_ipc(
            Command::Issue { cmd: IssueCommand::Update { id, title: maybe, body: maybe_other, lock } },
        ) == Some(
            IpcCommandView::IssueUpdate {
                issue_id: id@,
                title: opt_view(maybe),
                body: opt_view(maybe_other),
            },
        ),
        spec_cli_to_ipc(
            Command::Issue { cmd: IssueCommand::Create { title: text, body: other, label: labels } },
        ) == Some(
            IpcCommandView::IssueCreate { title: text@, body: other@, labels: strings_view(labels) },
        ),
        spec_cli_to_ipc(Command::Issue { cmd: IssueCommand::List { state: maybe, label: maybe_other } })
            == Some(IpcCommandView::IssueList { state: opt_view(maybe), label: opt_view(maybe_other) }),
        spec_cli_to_ipc(
            Command::Issue { cmd: IssueCommand::Label { cmd: LabelCommand::Add { id, label: text, lock } } },
        ) == Some(IpcCommandView::IssueLabel { issue_id: id@, add: seq![text@], remove: Seq::empty() }),
        spec_cli_to_ipc(
            Command::Issue {
                cmd: IssueCommand::Label { cmd: LabelCommand::Remove { id, label: text, lock } },
            },
        ) == Some(IpcCommandView::IssueLabel { issue_id: id@, add: Seq::empty(), remove: seq![text@] }),
        spec_cli_to_ipc(
            Command::Issue {
                cmd: IssueCommand::Assignee { cmd: AssigneeCommand::Add { id, user: text, lock } },
            },
        ) == Some(IpcCommandView::IssueAssign { issue_id: id@, add: seq![text@], remove: Seq::empty() }),
        spec_cli_to_ipc(
            Command::Issue {
                cmd: IssueCommand::Assignee { cmd: AssigneeCommand::Remove { id, user: text, lock } },
            },
        ) == Some(IpcCommandView::IssueAssign { issue_id: id@, add: Seq::empty(), remove: seq![text@] }),
        spec_cli_to_ipc(
            Command::Issue {
                cmd: IssueCommand::Link { cmd: LinkCommand::Add { id, url: text, note: maybe, lock } },
            },
        ) == Some(IpcCommandView::IssueLink { issue_id: id@, url: text@, note: opt_view(maybe) }),
{
}

/// Closing and reopening the same issue never send the same daemon command.
pub proof fn lemma_close_and_reopen_differ(id: String, lock: bool)
    ensures
        spec_cli_to_ipc(Command::Issue { cmd: IssueCommand::Close { id, lock } }) != spec_cli_to_ipc(
            Command::Issue { cmd: IssueCommand::Reopen { id, lock } },
        ),
{
}

/// The commands that run only locally are exactly initialisation, actor,
/// daemon and lock management, the doctor, and the database commands other
/// than statistics; every other command may go through the daemon.
pub proof fn lemma_local_only_commands(cmd: Command)
    ensures
        !spec_should_route(cmd) <==> (cmd is Init || cmd is Actor || cmd is Daemon || cmd is Lock
            || cmd is Doctor || (cmd matches Command::Db { cmd: db } && !(db is Stats))),
{
}

/// The commands other than issue commands go to the daemon as the command
/// of the same kind with the same values.
pub proof fn lemma_other_commands_keep_their_kind(remote: String, pull: bool, push: bool, keep: usize)
    requires
        keep <= u32::MAX,
    ensures
        spec_cli_to_ipc(Command::Rebuild) == Some(IpcCommandView::Rebuild),
        spec_cli_to_ipc(Command::Db { cmd: DbCommand::Stats }) == Some(IpcCommandView::DbStats),
        spec_cli_to_ipc(Command::Sync { remote, pull, push }) == Some(
            IpcCommandView::Sync { remote: remote@, pull, push },
        ),
        spec_cli_to_ipc(Command::Snapshot { cmd: SnapshotCommand::Create }) == Some(
            IpcCommandView::SnapshotCreate,
        ),
        spec_cli_to_ipc(Command::Snapshot { cmd: SnapshotCommand::List }) == Some(
            IpcCommandView::SnapshotList,
        ),
        spec_cli_to_ipc(Command::Snapshot { cmd: SnapshotCommand::Gc { keep } }) == Some(
            IpcCommandView::SnapshotGc { keep: keep as u32 },
        ),
{
}

/// How a command is executed.
#[derive(Debug, Clone, Copy, PartialEq, Eq, Structural)]
pub enum ExecutionMode {
    /// Execute locally (no daemon, or the daemon is skipped).
    Local,
    /// Route through the daemon.
    Daemon,
    /// The daemon's lock is valid but the daemon cannot be reached.
    Blocked,
}

/// What reading the daemon's lock file in the data directory gave.
#[derive(Debug, Clone, Copy, PartialEq, Eq, Structural)]
pub enum LockRead {
    /// The lock file could not be read.
    Unreadable,
    /// There is no lock file.
    Absent,
    /// A lock file, expired or not.
    Present { expired: bool },
}

/// The next step in choosing an execution mode once the lock has been read.
#[derive(Debug, Clone, Copy, PartialEq, Eq, Structural)]
pub enum ModeStep {
    /// The mode is settled.
    Decided(ExecutionMode),
    /// A live lock: try to connect to the daemon it names.
    Connect,
}

/// The first step of choosing the execution mode: `--no-daemon`, a missing,
/// unreadable or expired lock all mean local execution; a live lock means
/// the daemon must be tried.
pub fn execution_mode_step(no_daemon: bool, lock: LockRead) -> (r: ModeStep)
    ensures
        r == (if !no_daemon && lock == (LockRead::Present { expired: false }) {
            ModeStep::Connect
        } else {
            ModeStep::Decided(ExecutionMode::Local)
        }),
{
    if no_daemon {
        return ModeStep::Decided(ExecutionMode::Local);
    }
    match lock {
        LockRead::Present { expired } => if expired {
            ModeStep::Decided(ExecutionMode::Local)
        } else {
            ModeStep::Connect
        },
        LockRead::Absent => ModeStep::Decided(ExecutionMode::Local),
        LockRead::Unreadable => ModeStep::Decided(ExecutionMode::Local),
    }
}

/// The second step: a daemon that answers the connection is used; a live
/// lock whose daemon cannot be reached blocks the command.
pub fn execution_mode_after_connect(connected: bool) -> (r: ExecutionMode)
    ensures
        r == (if connected {
            ExecutionMode::Daemon
        } else {
            ExecutionMode::Blocked
        }),
{
    if connected {
        ExecutionMode::Daemon
    } else {
        ExecutionMode::Blocked
    }
}

/// The mode the two steps settle on, for a given lock and connection outcome.
pub open spec fn spec_execution_mode(no_daemon: bool, lock: LockRead, connected: bool) -> ExecutionMode {
    if !no_daemon && lock == (LockRead::Present { expired: false }) {
        if connected {
            ExecutionMode::Daemon
        } else {
            ExecutionMode::Blocked
        }
    } else {
        ExecutionMode::Local
    }
}

/// `--no-daemon` always executes locally, and the daemon is used only for a
/// live lock whose daemon answers.
pub proof fn lemma_daemon_only_for_live_reachable_lock(no_daemon: bool, lock: LockRead, connected: bool)
    ensures
        no_daemon ==> spec_execution_mode(no_daemon, lock, connected) == ExecutionMode::Local,
        spec_execution_mode(no_daemon, lock, connected) == ExecutionMode::Daemon <==> (!no_daemon
            && lock == (LockRead::Present { expired: false }) && connected),
        spec_execution_mode(no_daemon, lock, connected) == ExecutionMode::Blocked <==> (!no_daemon
            && lock == (LockRead::Present { expired: false }) && !connected),
{
}

/// Where a command goes once the execution mode is known.
#[derive(Debug, Clone, Copy, PartialEq, Eq, Structural)]
pub enum RouteResult {
    /// Execute locally.
    Local,
    /// Send the command to the daemon; its reply is the answer.
    DaemonResponse,
    /// Blocked by the daemon's lock, held by `pid` for `expires_in_ms` more.
    Blocked { pid: u32, expires_in_ms: u64 },
}

/// Route a command: local mode executes locally, daemon mode sends it to the
/// daemon, and a blocked mode reports the lock's owner and remaining time.
pub fn route_command(mode: ExecutionMode, lock_pid: u32, lock_remaining_ms: u64) -> (r: RouteResult)
    ensures
        r == (match mode {
            ExecutionMode::Local => RouteResult::Local,
            ExecutionMode::Daemon => RouteResult::DaemonResponse,
            ExecutionMode::Blocked => RouteResult::Blocked {
                pid: lock_pid,
                expires_in_ms: lock_remaining_ms,
            },
        }),
{
    match mode {
        ExecutionMode::Local => RouteResult::Local,
        ExecutionMode::Daemon => RouteResult::DaemonResponse,
        ExecutionMode::Blocked => RouteResult::Blocked { pid: lock_pid, expires_in_ms: lock_remaining_ms },
    }
}

/// The message for a command blocked by a daemon's lock: the remaining time
/// is shown in whole seconds.
pub open spec fn spec_blocked_message(pid: u32, expires_in_ms: u64) -> Seq<char> {
    "Data directory locked by daemon (PID "@ + decimal_chars(pid as nat) + ", expires in "@
        + decimal_chars((expires_in_ms / 1000) as nat)
        + "s). Use --no-daemon to wait or try later."@
}

/// `format!("Data directory locked by daemon (PID {}, expires in {}s). ...", pid, expires_in_ms / 1000)`.
pub fn blocked_message(pid: u32, expires_in_ms: u64) -> (s: String)
    ensures
        s@ == spec_blocked_message(pid, expires_in_ms),
{
    let mut s = String::from_str("Data directory locked by daemon (PID ");
    s.append(decimal_string(pid as u64).as_str());
    s.append(", expires in ");
    s.append(decimal_string(expires_in_ms / 1000).as_str());
    s.append("s). Use --no-daemon to wait or try later.");
    s
}

/// The kind of error a daemon error code maps to.
#[derive(Debug, Clone, Copy, PartialEq, Eq, Structural)]
pub enum ErrorKind {
    NotFound,
    InvalidArgs,
    Conflict,
    DbBusy,
    Ipc,
    Internal,
}

pub open spec fn spec_error_kind(code: Seq<char>) -> ErrorKind {
    if code == "not_found"@ {
        ErrorKind::NotFound
    } else if code == "invalid_input"@ || code == "invalid_args"@ {
        ErrorKind::InvalidArgs
    } else if code == "conflict"@ {
        ErrorKind::Conflict
    } else if code == "db_busy"@ {
        ErrorKind::DbBusy
    } else if code == "ipc_error"@ {
        ErrorKind::Ipc
    } else {
        ErrorKind::Internal
    }
}

/// Each known error code names its own kind (`invalid_input` and
/// `invalid_args` both mean invalid arguments), and any other code is an
/// internal error.
pub proof fn lemma_error_codes_name_their_kind(code: Seq<char>)
    ensures
        spec_error_kind(code) == ErrorKind::NotFound <==> code == "not_found"@,
        spec_error_kind(code) == ErrorKind::InvalidArgs <==> (code == "invalid_input"@ || code
            == "invalid_args"@),
        spec_error_kind(code) == ErrorKind::Conflict <==> code == "conflict"@,
        spec_error_kind(code) == ErrorKind::DbBusy <==> code == "db_busy"@,
        spec_error_kind(code) == ErrorKind::Ipc <==> code == "ipc_error"@,
        spec_error_kind(code) == ErrorKind::Internal <==> !(code == "not_found"@ || code
            == "invalid_input"@ || code == "invalid_args"@ || code == "conflict"@ || code
            == "db_busy"@ || code == "ipc_error"@),
{
    reveal_strlit("not_found");
    reveal_strlit("invalid_input");
    reveal_strlit("invalid_args");
    reveal_strlit("conflict");
    reveal_strlit("db_busy");
    reveal_strlit("ipc_error");
    assert("not_found"@.len() == 9 && "not_found"@[0] == 'n');
    assert("invalid_input"@.len() == 13 && "invalid_input"@[0] == 'i');
    assert("invalid_args"@.len() == 12 && "invalid_args"@[0] == 'i');
    assert("conflict"@.len() == 8 && "conflict"@[0] == 'c');
    assert("db_busy"@.len() == 7 && "db_busy"@[0] == 'd');
    assert("ipc_error"@.len() == 9 && "ipc_error"@[0] == 'i');
}

/// The error kind for a code in a daemon's error reply; unknown codes are internal errors.
pub fn error_kind_for_code(code: &str) -> (r: ErrorKind)
    ensures
        r == spec_error_kind(code@),
{
    if same_text(code, "not_found") {
        ErrorKind::NotFound
    } else if same_text(code, "invalid_input") {
        ErrorKind::InvalidArgs
    } else if same_text(code, "invalid_args") {
        ErrorKind::InvalidArgs
    } else if same_text(code, "conflict") {
        ErrorKind::Conflict
    } else if same_text(code, "db_busy") {
        ErrorKind::DbBusy
    } else if same_text(code, "ipc_error") {
        ErrorKind::Ipc
    } else {
        ErrorKind::Internal
    }
}

/// The code and message of a failed daemon reply; a reply without an error
/// body is reported as an unknown error.
pub fn daemon_error_parts(error: Option<(String, String)>) -> (r: (String, String))
    ensures
        error matches Some(e) ==> r.0@ == e.0@ && r.1@ == e.1@,
        error is None ==> r.0@ == "unknown"@ && r.1@ == "Unknown error"@,
{
    match error {
        Some(e) => e,
        None => (String::from_str("unknown"), String::from_str("Unknown error")),
    }
}

} // verus!
