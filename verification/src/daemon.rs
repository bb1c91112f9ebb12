//! Decisions the daemon's supervisor and workers make about requests.

use vstd::prelude::*;
use vstd::string::*;
use crate::error::DaemonError;
use crate::codec::{all_hex, decode_hex_exact, hex_decoded, hex_exact_result, HexDecodeError};
use vstd::utf8::*;
use crate::ipc::IpcCommand;
use crate::numparse::{parse_u64, spec_parse_u64};
use crate::router::attachment_path_chars;
use crate::text::{chars_of, decimal_chars, decimal_string, same_text};

verus! {

/// How the supervisor handles a request whose header it has read.
#[derive(Debug, Clone, Copy, PartialEq, Eq, Structural)]
pub enum RequestDisposition {
    /// The request speaks another schema version: answer `version_mismatch`.
    VersionMismatch { expected: u32, got: u32 },
    /// Stop the daemon and answer that it is stopping.
    Stop,
    /// Answer with the daemon's own status.
    Status,
    /// Hand the request to the repository's worker.
    RouteToWorker,
}

/// Daemon-level commands are answered by the supervisor itself, after the
/// schema version check; everything else goes to a worker.
pub fn classify_request(expected_version: u32, version: u32, command: &IpcCommand) -> (r: RequestDisposition)
    ensures
        version != expected_version ==> r == (RequestDisposition::VersionMismatch {
            expected: expected_version,
            got: version,
        }),
        version == expected_version ==> r == (match *command {
            IpcCommand::DaemonStop => RequestDisposition::Stop,
            IpcCommand::DaemonStatus => RequestDisposition::Status,
            _ => RequestDisposition::RouteToWorker,
        }),
{
    if version != expected_version {
        return RequestDisposition::VersionMismatch { expected: expected_version, got: version };
    }
    match command {
        IpcCommand::DaemonStop => RequestDisposition::Stop,
        IpcCommand::DaemonStatus => RequestDisposition::Status,
        _ => RequestDisposition::RouteToWorker,
    }
}

/// `format!("Expected version {}, got {}", expected, got)`.
pub fn version_mismatch_message(expected: u32, got: u32) -> (s: String)
    ensures
        s@ == "Expected version "@ + decimal_chars(expected as nat) + ", got "@ + decimal_chars(
            got as nat,
        ),
{
    let mut s = String::from_str("Expected version ");
    s.append(decimal_string(expected as u64).as_str());
    s.append(", got ");
    s.append(decimal_string(got as u64).as_str());
    s
}

/// Whether the daemon has been idle for its whole timeout. Times are in
/// milliseconds since the daemon started; a clock that went backwards counts
/// as no idle time.
pub fn idle_timeout_reached(last_activity_ms: u64, now_ms: u64, idle_timeout_ms: Option<u64>) -> (r: bool)
    ensures
        r == (idle_timeout_ms matches Some(t) && (if now_ms >= last_activity_ms {
            now_ms - last_activity_ms
        } else {
            0
        }) >= t),
{
    match idle_timeout_ms {
        Some(timeout) => {
            let idle_ms = now_ms.saturating_sub(last_activity_ms);
            idle_ms >= timeout
        },
        None => false,
    }
}

/// What the supervisor does with its socket path before listening.
#[derive(Debug, Clone, Copy, PartialEq, Eq, Structural)]
pub enum BindAction {
    /// Nothing is there: bind the path.
    Bind,
    /// A socket file no one answers on is left over: remove it, then bind.
    RemoveStaleThenBind,
}

/// Before binding: a socket path that exists and takes a connection belongs
/// to another live supervisor, so starting is refused; one that exists but
/// does not answer is stale and is removed first.
pub fn bind_decision(socket_path: &str, socket_exists: bool, connect_ok: bool) -> (r: Result<
    BindAction,
    DaemonError,
>)
    ensures
        !socket_exists ==> r == Ok::<BindAction, DaemonError>(BindAction::Bind),
        socket_exists && !connect_ok ==> r == Ok::<BindAction, DaemonError>(
            BindAction::RemoveStaleThenBind,
        ),
        socket_exists && connect_ok ==> (r matches Err(DaemonError::BindFailed(m)) && m@
            == "Another supervisor is already listening on "@ + socket_path@),
{
    if !socket_exists {
        return Ok(BindAction::Bind);
    }
    if connect_ok {
        let mut m = String::from_str("Another supervisor is already listening on ");
        m.append(socket_path);
        return Err(DaemonError::BindFailed(m));
    }
    Ok(BindAction::RemoveStaleThenBind)
}

/// The failure when the stale socket cannot be removed.
pub fn stale_socket_error(socket_path: &str, reason: &str) -> (r: DaemonError)
    ensures
        r matches DaemonError::BindFailed(m) && m@ == "Failed to remove stale socket "@ + socket_path@
            + ": "@ + reason@,
{
    let mut m = String::from_str("Failed to remove stale socket ");
    m.append(socket_path);
    m.append(": ");
    m.append(reason);
    DaemonError::BindFailed(m)
}

/// The failure when the socket cannot be bound.
pub fn bind_error(socket_path: &str, reason: &str) -> (r: DaemonError)
    ensures
        r matches DaemonError::BindFailed(m) && m@ == "Failed to bind to "@ + socket_path@ + ": "@
            + reason@,
{
    let mut m = String::from_str("Failed to bind to ");
    m.append(socket_path);
    m.append(": ");
    m.append(reason);
    DaemonError::BindFailed(m)
}

/// What the worker table holds for a repository.
#[derive(Debug, Clone, Copy, PartialEq, Eq, Structural)]
pub enum WorkerSlot {
    /// No worker.
    Missing,
    /// A worker whose channel is closed.
    Dead,
    /// A worker that still takes messages.
    Live,
}

/// The next step in routing a request to its repository's worker.
#[derive(Debug, Clone, Copy, PartialEq, Eq, Structural)]
pub enum RoutingStep {
    /// Send to the worker in the table.
    SendToExisting,
    /// Remove the dead worker from the table (when `remove_dead`), then
    /// create a new worker without holding the table.
    CreateWorker { remove_dead: bool },
    /// Install the new worker (removing a dead one first when `remove_dead`) and send to it.
    InstallAndSend { remove_dead: bool },
    /// Answer `worker_creation_failed`.
    Fail,
}

/// First look at the table: a live worker gets the request; otherwise a
/// dead worker is dropped and a new one is created.
pub fn route_first_lookup(slot: WorkerSlot) -> (r: RoutingStep)
    ensures
        r == (match slot {
            WorkerSlot::Live => RoutingStep::SendToExisting,
            WorkerSlot::Dead => RoutingStep::CreateWorker { remove_dead: true },
            WorkerSlot::Missing => RoutingStep::CreateWorker { remove_dead: false },
        }),
{
    match slot {
        WorkerSlot::Live => RoutingStep::SendToExisting,
        WorkerSlot::Dead => RoutingStep::CreateWorker { remove_dead: true },
        WorkerSlot::Missing => RoutingStep::CreateWorker { remove_dead: false },
    }
}

/// The second look's decision: a live worker in the table wins, else a
/// created worker is installed (over a dead one when there is one), else
/// the request fails.
pub open spec fn spec_route_after_creation(created: bool, slot: WorkerSlot) -> RoutingStep {
    if slot == WorkerSlot::Live {
        RoutingStep::SendToExisting
    } else if created {
        RoutingStep::InstallAndSend { remove_dead: slot == WorkerSlot::Dead }
    } else {
        RoutingStep::Fail
    }
}

/// The second look sends to the table's worker exactly when it is live;
/// otherwise it installs the created worker, clearing the slot exactly when
/// a dead worker sits there, and fails exactly when no worker was created.
pub proof fn lemma_second_look(created: bool, slot: WorkerSlot)
    ensures
        spec_route_after_creation(created, slot) == RoutingStep::SendToExisting <==> slot
            == WorkerSlot::Live,
        spec_route_after_creation(created, slot) is InstallAndSend <==> (slot != WorkerSlot::Live
            && created),
        spec_route_after_creation(created, slot) matches RoutingStep::InstallAndSend { remove_dead }
            ==> (remove_dead <==> slot == WorkerSlot::Dead),
        spec_route_after_creation(created, slot) == RoutingStep::Fail <==> (slot != WorkerSlot::Live
            && !created),
{
}

/// The table's slot for the repository once a second look has acted.
pub open spec fn slot_after(slot: WorkerSlot, step: RoutingStep) -> WorkerSlot {
    if step is InstallAndSend {
        WorkerSlot::Live
    } else {
        slot
    }
}

/// The table's slot after the second looks of racing requests for one
/// repository, taken one at a time under the table lock; `created` says
/// for each whether its own worker could be created.
pub open spec fn slot_after_race(slot: WorkerSlot, created: Seq<bool>) -> WorkerSlot
    decreases created.len(),
{
    if created.len() == 0 {
        slot
    } else {
        let before = slot_after_race(slot, created.drop_last());
        slot_after(before, spec_route_after_creation(created.last(), before))
    }
}

/// The decisions the racing requests' second looks take, in order.
pub open spec fn race_steps(slot: WorkerSlot, created: Seq<bool>) -> Seq<RoutingStep>
    decreases created.len(),
{
    if created.len() == 0 {
        Seq::empty()
    } else {
        let before = slot_after_race(slot, created.drop_last());
        race_steps(slot, created.drop_last()).push(
            spec_route_after_creation(created.last(), before),
        )
    }
}

/// How many of `steps` install a worker.
pub open spec fn install_count(steps: Seq<RoutingStep>) -> nat
    decreases steps.len(),
{
    if steps.len() == 0 {
        0
    } else {
        install_count(steps.drop_last()) + if steps.last() is InstallAndSend {
            1nat
        } else {
            0nat
        }
    }
}

proof fn lemma_install_counted(steps: Seq<RoutingStep>, i: int)
    requires
        0 <= i < steps.len(),
        steps[i] is InstallAndSend,
    ensures
        install_count(steps) > 0,
    decreases steps.len(),
{
    if i < steps.len() - 1 {
        lemma_install_counted(steps.drop_last(), i);
    }
}

/// Requests racing to create the worker of one repository: each gets
/// exactly one answer (sent to a worker, or failed), at most one worker is
/// installed, none over a live worker, and once one is installed every
/// later request is sent to it; the losers drop their own worker.
pub proof fn lemma_racing_creations_install_once(slot: WorkerSlot, created: Seq<bool>)
    ensures
        race_steps(slot, created).len() == created.len(),
        forall|i: int|
            0 <= i < created.len() ==> !(#[trigger] race_steps(slot, created)[i] is CreateWorker),
        install_count(race_steps(slot, created)) <= 1,
        slot == WorkerSlot::Live ==> install_count(race_steps(slot, created)) == 0,
        slot == WorkerSlot::Live ==> slot_after_race(slot, created) == WorkerSlot::Live,
        install_count(race_steps(slot, created)) > 0 ==> slot_after_race(slot, created)
            == WorkerSlot::Live,
        forall|i: int, j: int|
            0 <= i < j < created.len() && (#[trigger] race_steps(slot, created)[i]) is InstallAndSend
                ==> #[trigger] race_steps(slot, created)[j] == RoutingStep::SendToExisting,
    decreases created.len(),
{
    if created.len() > 0 {
        let prev = created.drop_last();
        lemma_racing_creations_install_once(slot, prev);
        let steps = race_steps(slot, created);
        let before = slot_after_race(slot, prev);
        assert(steps.drop_last() =~= race_steps(slot, prev));
        assert forall|i: int, j: int|
            0 <= i < j < created.len() && (#[trigger] steps[i]) is InstallAndSend implies
                #[trigger] steps[j] == RoutingStep::SendToExisting by {
            if j == created.len() - 1 {
                lemma_install_counted(race_steps(slot, prev), i);
            } else {
                assert(steps[i] == race_steps(slot, prev)[i]);
                assert(steps[j] == race_steps(slot, prev)[j]);
            }
        }
        assert forall|i: int| 0 <= i < created.len() implies !(#[trigger] steps[i] is CreateWorker) by {
            if i < created.len() - 1 {
                assert(steps[i] == race_steps(slot, prev)[i]);
            }
        }
    }
}

/// Second look, after creating a worker outside the table lock: another
/// task's live worker wins the race; otherwise the new worker is installed
/// when it was created, and the request fails when it was not.
pub fn route_after_creation(created: bool, slot: WorkerSlot) -> (r: RoutingStep)
    ensures
        r == spec_route_after_creation(created, slot),
{
    match slot {
        WorkerSlot::Live => RoutingStep::SendToExisting,
        WorkerSlot::Dead => if created {
            RoutingStep::InstallAndSend { remove_dead: true }
        } else {
            RoutingStep::Fail
        },
        WorkerSlot::Missing => if created {
            RoutingStep::InstallAndSend { remove_dead: false }
        } else {
            RoutingStep::Fail
        },
    }
}

/// A message on a worker's channel.
#[derive(Debug, Clone, Copy, PartialEq, Eq, Structural)]
pub enum WorkerMessage {
    /// A command from a client, whose actor id parsed or not.
    Command { actor_id_valid: bool },
    /// The supervisor's periodic heartbeat.
    Heartbeat,
    /// The supervisor asks the worker to stop.
    Shutdown,
}

/// What a worker does with a message.
#[derive(Debug, Clone, Copy, PartialEq, Eq, Structural)]
pub enum WorkerAction {
    /// Run the command on the blocking pool and answer it.
    Execute,
    /// Answer `invalid_actor` without running anything.
    RejectActor,
    /// Refresh the daemon lock.
    RefreshLock,
    /// Leave the message loop.
    Stop,
}

/// A worker runs commands from valid actors, refreshes its lock on each
/// heartbeat, and stops when told to.
pub fn worker_action(msg: WorkerMessage) -> (r: WorkerAction)
    ensures
        r == (match msg {
            WorkerMessage::Command { actor_id_valid } => if actor_id_valid {
                WorkerAction::Execute
            } else {
                WorkerAction::RejectActor
            },
            WorkerMessage::Heartbeat => WorkerAction::RefreshLock,
            WorkerMessage::Shutdown => WorkerAction::Stop,
        }),
{
    match msg {
        WorkerMessage::Command { actor_id_valid } => if actor_id_valid {
            WorkerAction::Execute
        } else {
            WorkerAction::RejectActor
        },
        WorkerMessage::Heartbeat => WorkerAction::RefreshLock,
        WorkerMessage::Shutdown => WorkerAction::Stop,
    }
}

/// The error code and message for a command whose actor id does not parse.
pub fn invalid_actor_reply(error_text: &str) -> (r: (String, String))
    ensures
        r.0@ == "invalid_actor"@,
        r.1@ == "Invalid actor ID: "@ + error_text@,
{
    let mut m = String::from_str("Invalid actor ID: ");
    m.append(error_text);
    (String::from_str("invalid_actor"), m)
}

/// The next step while a stopping worker waits for its commands in flight.
#[derive(Debug, Clone, Copy, PartialEq, Eq, Structural)]
pub enum DrainStep {
    /// Nothing is in flight.
    Done,
    /// Wait a little and look again.
    Wait,
    /// The deadline passed with commands still in flight.
    GiveUp,
}

/// A stopping worker waits for its in-flight commands until a deadline.
pub fn drain_step(in_flight: usize, now_ms: u64, deadline_ms: u64) -> (r: DrainStep)
    ensures
        r == (if in_flight == 0 {
            DrainStep::Done
        } else if now_ms >= deadline_ms {
            DrainStep::GiveUp
        } else {
            DrainStep::Wait
        }),
{
    if in_flight == 0 {
        DrainStep::Done
    } else if now_ms >= deadline_ms {
        DrainStep::GiveUp
    } else {
        DrainStep::Wait
    }
}

/// The warning when in-flight commands outlast the deadline.
pub fn drain_timeout_warning(in_flight: usize) -> (s: String)
    ensures
        s@ == "Timed out waiting for "@ + decimal_chars(in_flight as nat) + " in-flight commands"@,
{
    let mut s = String::from_str("Timed out waiting for ");
    s.append(decimal_string(in_flight as u64).as_str());
    s.append(" in-flight commands");
    s
}

/// The most connections the supervisor serves at once.
pub const MAX_CONNECTIONS: usize = 256;

/// An accepted connection is served while fewer than the maximum are open,
/// and dropped otherwise.
pub fn admit_connection(open_connections: usize) -> (r: bool)
    ensures
        r == (open_connections < MAX_CONNECTIONS),
{
    open_connections < MAX_CONNECTIONS
}

/// How a hand-off to a worker went wrong.
#[derive(Debug, Clone, Copy, PartialEq, Eq, Structural)]
pub enum WorkerReplyFailure {
    /// The worker's channel was closed.
    ChannelClosed,
    /// The worker dropped the reply channel.
    ReplyDropped,
    /// The worker did not answer in time.
    TimedOut,
}

/// The error code and message answered for a failed hand-off.
pub fn worker_reply_error(f: WorkerReplyFailure) -> (r: (String, String))
    ensures
        f == WorkerReplyFailure::ChannelClosed ==> r.0@ == "worker_unavailable"@ && r.1@
            == "Worker channel closed"@,
        f == WorkerReplyFailure::ReplyDropped ==> r.0@ == "worker_error"@ && r.1@
            == "Worker response channel dropped"@,
        f == WorkerReplyFailure::TimedOut ==> r.0@ == "timeout"@ && r.1@ == "Worker timed out"@,
{
    match f {
        WorkerReplyFailure::ChannelClosed => (
            String::from_str("worker_unavailable"),
            String::from_str("Worker channel closed"),
        ),
        WorkerReplyFailure::ReplyDropped => (
            String::from_str("worker_error"),
            String::from_str("Worker response channel dropped"),
        ),
        WorkerReplyFailure::TimedOut => (String::from_str("timeout"), String::from_str("Worker timed out")),
    }
}

/// Issue state named in a filter.
#[derive(Debug, Clone, Copy, PartialEq, Eq, Structural)]
pub enum IssueState {
    Open,
    Closed,
}

/// A state filter text: `closed` selects closed issues, anything else open ones.
pub fn parse_issue_state(s: &str) -> (r: IssueState)
    ensures
        r == (if s@ == "closed"@ {
            IssueState::Closed
        } else {
            IssueState::Open
        }),
{
    if String::from_str(s) == String::from_str("closed") {
        IssueState::Closed
    } else {
        IssueState::Open
    }
}

/// Errors the worker reports for a malformed command.
#[derive(Debug)]
pub enum CommandError {
    /// The arguments are not acceptable; the text says why.
    InvalidArgs(String),
}

/// An update must change the title, the body or both.
pub fn check_update_args(title: &Option<String>, body: &Option<String>) -> (r: Result<(), CommandError>)
    ensures
        r is Ok <==> (title is Some || body is Some),
        r matches Err(CommandError::InvalidArgs(m)) ==> m@
            == "At least one of title or body must be provided"@,
{
    if title.is_none() && body.is_none() {
        return Err(
            CommandError::InvalidArgs(String::from_str("At least one of title or body must be provided")),
        );
    }
    Ok(())
}

/// One event of a label or assignee change.
#[derive(Debug, Clone, PartialEq, Eq)]
pub enum SetChange {
    /// The value is added.
    Added(String),
    /// The value is removed.
    Removed(String),
}

/// The events for a label or assignee command: every addition, in order,
/// then every removal, in order, one event per value.
pub open spec fn spec_set_changes(add: Seq<String>, remove: Seq<String>) -> Seq<SetChange> {
    add.map_values(|v: String| SetChange::Added(v)) + remove.map_values(|v: String| SetChange::Removed(v))
}

/// A label or assignee command writes one event per value: first an
/// addition for each value to add, in order, then a removal for each value
/// to remove, in order, whether or not anything is added.
pub proof fn lemma_set_changes_one_event_per_value(add: Seq<String>, remove: Seq<String>)
    ensures
        spec_set_changes(add, remove).len() == add.len() + remove.len(),
        forall|i: int| 0 <= i < add.len() ==> #[trigger] spec_set_changes(add, remove)[i]
            == SetChange::Added(add[i]),
        forall|j: int| 0 <= j < remove.len() ==> #[trigger] spec_set_changes(add, remove)[add.len() + j]
            == SetChange::Removed(remove[j]),
{
}

/// The events to write for a label or assignee command.
pub fn set_changes(add: &Vec<String>, remove: &Vec<String>) -> (r: Vec<SetChange>)
    requires
        add@.len() + remove@.len() <= usize::MAX,
    ensures
        r@ == spec_set_changes(add@, remove@),
{
    let mut r: Vec<SetChange> = Vec::new();
    let mut i: usize = 0;
    while i < add.len()
        invariant
            i <= add@.len(),
            r@ == add@.subrange(0, i as int).map_values(|v: String| SetChange::Added(v)),
        decreases add@.len() - i,
    {
        r.push(SetChange::Added(add[i].clone()));
        i = i + 1;
        assert(r@ =~= add@.subrange(0, i as int).map_values(|v: String| SetChange::Added(v)));
    }
    let mut j: usize = 0;
    while j < remove.len()
        invariant
            i == add@.len(),
            j <= remove@.len(),
            r@ == add@.map_values(|v: String| SetChange::Added(v)) + remove@.subrange(0, j as int).map_values(
                |v: String| SetChange::Removed(v),
            ),
        decreases remove@.len() - j,
    {
        proof {
            assert(add@.subrange(0, i as int) =~= add@);
        }
        r.push(SetChange::Removed(remove[j].clone()));
        j = j + 1;
        assert(r@ =~= add@.map_values(|v: String| SetChange::Added(v)) + remove@.subrange(0, j as int).map_values(
            |v: String| SetChange::Removed(v),
        ));
    }
    assert(remove@.subrange(0, j as int) =~= remove@);
    assert(add@.subrange(0, i as int) =~= add@);
    r
}

/// Export formats the daemon writes.
#[derive(Debug, Clone, Copy, PartialEq, Eq, Structural)]
pub enum ExportKind {
    Json,
    Markdown,
}

/// The export request: its format, and the timestamp to export from when
/// `since` is a decimal number (anything else exports everything).
pub fn parse_export_request(format: &str, since: &Option<String>) -> (r: Result<
    (ExportKind, Option<u64>),
    CommandError,
>)
    ensures
        format@ == "json"@ ==> (r matches Ok((k, _)) && k == ExportKind::Json),
        format@ == "md"@ || format@ == "markdown"@ ==> (r matches Ok((k, _)) && k == ExportKind::Markdown),
        format@ != "json"@ && format@ != "md"@ && format@ != "markdown"@ ==> (r matches Err(
            CommandError::InvalidArgs(m),
        ) && m@ == "Unknown format: "@ + format@),
        r matches Ok((_, t)) ==> t == (match *since {
            Some(s) => spec_parse_u64(s@),
            None => None,
        }),
{
    let since_ts = match since {
        Some(s) => parse_u64(s.as_str()),
        None => None,
    };
    let f = String::from_str(format);
    proof {
        reveal_strlit("json");
        reveal_strlit("md");
        reveal_strlit("markdown");
        assert("json"@.len() == 4);
        assert("md"@.len() == 2);
        assert("markdown"@.len() == 8);
    }
    if f == String::from_str("json") {
        Ok((ExportKind::Json, since_ts))
    } else if f == String::from_str("md") {
        Ok((ExportKind::Markdown, since_ts))
    } else if f == String::from_str("markdown") {
        Ok((ExportKind::Markdown, since_ts))
    } else {
        let mut m = String::from_str("Unknown format: ");
        m.append(format);
        Err(CommandError::InvalidArgs(m))
    }
}

/// The kinds of dependency between issues.
#[derive(Debug, Clone, Copy, PartialEq, Eq, Structural)]
pub enum DepType {
    Blocks,
    DependsOn,
    RelatedTo,
}

impl DepType {
    pub open spec fn spec_as_str(self) -> Seq<char> {
        match self {
            DepType::Blocks => "blocks"@,
            DepType::DependsOn => "depends_on"@,
            DepType::RelatedTo => "related_to"@,
        }
    }

    /// The dependency type's name.
    pub fn as_str(&self) -> (r: &'static str)
        ensures
            r@ == self.spec_as_str(),
    {
        match self {
            DepType::Blocks => "blocks",
            DepType::DependsOn => "depends_on",
            DepType::RelatedTo => "related_to",
        }
    }
}

/// The dependency type a name selects.
pub open spec fn spec_dep_type(s: Seq<char>) -> Option<DepType> {
    if s == "blocks"@ {
        Some(DepType::Blocks)
    } else if s == "depends_on"@ {
        Some(DepType::DependsOn)
    } else if s == "related_to"@ {
        Some(DepType::RelatedTo)
    } else {
        None
    }
}

/// The dependency types are read back from their names, and only their
/// three names are dependency types.
pub proof fn lemma_dep_type_names(d: DepType, s: Seq<char>)
    ensures
        spec_dep_type(d.spec_as_str()) == Some(d),
        spec_dep_type(s) is Some <==> (s == "blocks"@ || s == "depends_on"@ || s == "related_to"@),
        spec_dep_type(s) matches Some(e) ==> e.spec_as_str() == s,
{
    reveal_strlit("blocks");
    reveal_strlit("depends_on");
    reveal_strlit("related_to");
    assert("blocks"@.len() == 6 && "blocks"@[0] == 'b');
    assert("depends_on"@.len() == 10 && "depends_on"@[0] == 'd');
    assert("related_to"@.len() == 10 && "related_to"@[0] == 'r');
}

/// Parse a dependency type from the command line; the refusal lists the valid names.
pub fn parse_dep_type(s: &str) -> (r: Result<DepType, CommandError>)
    ensures
        spec_dep_type(s@) matches Some(d) ==> r matches Ok(e) && e == d,
        spec_dep_type(s@) is None ==> (r matches Err(CommandError::InvalidArgs(m)) && m@
            == "Invalid dependency type '"@ + s@ + "'. Valid types: blocks, depends_on, related_to"@),
{
    if same_text(s, "blocks") {
        Ok(DepType::Blocks)
    } else if same_text(s, "depends_on") {
        Ok(DepType::DependsOn)
    } else if same_text(s, "related_to") {
        Ok(DepType::RelatedTo)
    } else {
        let mut m = String::from_str("Invalid dependency type '");
        m.append(s);
        m.append("'. Valid types: blocks, depends_on, related_to");
        Err(CommandError::InvalidArgs(m))
    }
}

/// The daemon's refusal of an unknown dependency type.
pub fn invalid_dep_type_message(dep_type: &str) -> (s: String)
    ensures
        s@ == "Invalid dep type: "@ + dep_type@,
{
    let mut s = String::from_str("Invalid dep type: ");
    s.append(dep_type);
    s
}

/// The refusal of a dependency that would close a cycle.
pub fn dependency_cycle_message(dep: DepType) -> (s: String)
    ensures
        s@ == "Adding this dependency would create a cycle in the "@ + dep.spec_as_str() + " graph"@,
{
    let mut s = String::from_str("Adding this dependency would create a cycle in the ");
    s.append(dep.as_str());
    s.append(" graph");
    s
}

/// Which way a dependency listing goes.
pub fn dep_list_direction(reverse: bool) -> (r: &'static str)
    ensures
        r@ == (if reverse {
            "dependents"@
        } else {
            "dependencies"@
        }),
{
    if reverse {
        "dependents"
    } else {
        "dependencies"
    }
}

/// No `:` in `s`.
pub open spec fn no_colon(s: Seq<char>) -> bool {
    forall|k: int| 0 <= k < s.len() ==> #[trigger] s[k] != ':'
}

/// `i` and `j` are the first two `:` in `s`.
pub open spec fn first_two_colons(s: Seq<char>, i: int, j: int) -> bool {
    &&& 0 <= i < j < s.len()
    &&& s[i] == ':'
    &&& s[j] == ':'
    &&& no_colon(s.subrange(0, i))
    &&& no_colon(s.subrange(i + 1, j))
}

/// `s.splitn(3, ':')` gives three parts.
pub open spec fn splits_in_three(s: Seq<char>) -> bool {
    exists|i: int, j: int| first_two_colons(s, i, j)
}

/// The outcome of parsing `fp`, whose first two colons are at `i` and `j`:
/// the middle part must be the hex of exactly 32 bytes.
pub open spec fn attachment_parsed(fp: Seq<char>, i: int, j: int, r: Result<AttachmentRef, CommandError>) -> bool {
    let b = encode_utf8(fp.subrange(i + 1, j));
    &&& (b.len() == 64 && all_hex(b)) ==> (r matches Ok(a) && a.name@ == fp.subrange(0, i) && a.mime@
        == fp.subrange(j + 1, fp.len() as int) && a.sha256@ == hex_decoded(b))
    &&& !(b.len() == 64 && all_hex(b)) ==> (r matches Err(CommandError::InvalidArgs(m)) && exists|
        e: HexDecodeError,
    | hex_exact_result(b, 32, Err(e)) && m@ == e.spec_message())
}

/// An attachment reference parsed from `name:sha256:mime`.
pub struct AttachmentRef {
    pub name: String,
    pub sha256: Vec<u8>,
    pub mime: String,
}

fn find_colon(cs: &Vec<char>, from: usize) -> (r: Option<usize>)
    requires
        from <= cs@.len(),
    ensures
        r matches Some(k) ==> from <= k < cs@.len() && cs@[k as int] == ':' && no_colon(
            cs@.subrange(from as int, k as int),
        ),
        r is None ==> no_colon(cs@.subrange(from as int, cs@.len() as int)),
{
    let n = cs.len();
    let mut k = from;
    while k < n
        invariant
            n == cs@.len(),
            from <= k <= n,
            no_colon(cs@.subrange(from as int, k as int)),
        decreases n - k,
    {
        if cs[k] == ':' {
            return Some(k);
        }
        proof {
            assert forall|q: int| 0 <= q < k + 1 - from implies #[trigger] cs@.subrange(
                from as int,
                k + 1,
            )[q] != ':' by {
                if q < k - from {
                    assert(cs@.subrange(from as int, k + 1)[q] == cs@.subrange(from as int, k as int)[q]);
                }
            }
        }
        k = k + 1;
    }
    None
}

/// `file_path` split at its first two colons; the sha256 part must be the
/// hex of exactly 32 bytes.
pub fn parse_attachment_path(file_path: &str) -> (r: Result<AttachmentRef, CommandError>)
    ensures
        !splits_in_three(file_path@) ==> (r matches Err(CommandError::InvalidArgs(m)) && m@
            == "file_path must be in format 'name:sha256:mime'"@),
        forall|i: int, j: int| #[trigger] first_two_colons(file_path@, i, j) ==> attachment_parsed(
            file_path@,
            i,
            j,
            r,
        ),
{
    let cs = chars_of(file_path);
    let n = cs.len();
    let bad = "file_path must be in format 'name:sha256:mime'";
    let i = match find_colon(&cs, 0) {
        Some(i) => i,
        None => {
            proof {
                assert forall|i: int, j: int| !first_two_colons(file_path@, i, j) by {
                    if first_two_colons(file_path@, i, j) {
                        assert(cs@.subrange(0, n as int)[i] == ':');
                    }
                }
            }
            return Err(CommandError::InvalidArgs(String::from_str(bad)));
        },
    };
    let j = match find_colon(&cs, i + 1) {
        Some(j) => j,
        None => {
            proof {
                assert forall|a: int, b: int| !first_two_colons(file_path@, a, b) by {
                    if first_two_colons(file_path@, a, b) {
                        if a < i {
                            assert(file_path@.subrange(0, i as int)[a] == ':');
                        } else if a > i {
                            assert(file_path@.subrange(0, a)[i as int] == ':');
                        } else {
                            assert(cs@.subrange(i + 1, n as int)[b - i - 1] == ':');
                        }
                    }
                }
            }
            return Err(CommandError::InvalidArgs(String::from_str(bad)));
        },
    };
    let name = file_path.substring_char(0, i);
    let sha = file_path.substring_char(i + 1, j);
    let mime = file_path.substring_char(j + 1, n);
    proof {
        assert(first_two_colons(file_path@, i as int, j as int));
    }
    let sha256 = match decode_hex_exact(sha, 32) {
        Ok(v) => v,
        Err(e) => {
            let r = Err(CommandError::InvalidArgs(e.message()));
            proof {
                assert forall|a: int, b: int| #[trigger]
                    first_two_colons(file_path@, a, b) implies attachment_parsed(
                    file_path@,
                    a,
                    b,
                    r,
                ) by {
                    lemma_first_two_colons_unique(file_path@, i as int, j as int, a, b);
                    assert(hex_exact_result(encode_utf8(file_path@.subrange(a + 1, b)), 32, Err(e)));
                }
            }
            return r;
        },
    };
    let r = Ok(AttachmentRef { name: String::from_str(name), sha256, mime: String::from_str(mime) });
    proof {
        assert forall|a: int, b: int| #[trigger]
            first_two_colons(file_path@, a, b) implies attachment_parsed(file_path@, a, b, r) by {
            lemma_first_two_colons_unique(file_path@, i as int, j as int, a, b);
        }
    }
    r
}

/// A string has at most one pair of first two colons.
proof fn lemma_first_two_colons_unique(s: Seq<char>, i: int, j: int, a: int, b: int)
    requires
        first_two_colons(s, i, j),
        first_two_colons(s, a, b),
    ensures
        a == i,
        b == j,
{
    if a < i {
        assert(s.subrange(0, i)[a] == ':');
    } else if a > i {
        assert(s.subrange(0, a)[i] == ':');
    }
    if b < j {
        assert(s.subrange(i + 1, j)[b - i - 1] == ':');
    } else if b > j {
        assert(s.subrange(a + 1, b)[j - a - 1] == ':');
    }
}


/// The path built for an attachment splits back into its name, hash and MIME
/// type, provided the name and hash hold no `:`.
pub proof fn lemma_attachment_path_roundtrip(name: Seq<char>, sha256: Seq<char>, mime: Seq<char>)
    requires
        no_colon(name),
        no_colon(sha256),
    ensures
        ({
            let p = attachment_path_chars(name, sha256, mime);
            let i = name.len() as int;
            let j = (name.len() + 1 + sha256.len()) as int;
            &&& first_two_colons(p, i, j)
            &&& p.subrange(0, i) == name
            &&& p.subrange(i + 1, j) == sha256
            &&& p.subrange(j + 1, p.len() as int) == mime
        }),
{
    let p = attachment_path_chars(name, sha256, mime);
    let i = name.len() as int;
    let j = (name.len() + 1 + sha256.len()) as int;
    let c: Seq<char> = seq![':'];
    assert(":"@ =~= c) by {
        reveal_strlit(":");
    }
    assert(p =~= name + c + sha256 + c + mime);
    assert(p.len() == name.len() + sha256.len() + mime.len() + 2);
    assert(p.subrange(0, i) =~= name);
    assert(p.subrange(i + 1, j) =~= sha256);
    assert(p.subrange(j + 1, p.len() as int) =~= mime);
    assert(p[i] == ':');
    assert(p[j] == ':');
}

/// What the command line sends as an attachment path, the daemon parses back:
/// for a name and hash without colons and a hash of 64 hex digits, any result
/// `parse_attachment_path` may give for the built path names the same file,
/// the decoded hash and the same MIME type.
pub proof fn lemma_attachment_parse_inverts_build(
    name: Seq<char>,
    sha256: Seq<char>,
    mime: Seq<char>,
    r: Result<AttachmentRef, CommandError>,
)
    requires
        no_colon(name),
        no_colon(sha256),
        encode_utf8(sha256).len() == 64,
        all_hex(encode_utf8(sha256)),
        forall|i: int, j: int| #[trigger]
            first_two_colons(attachment_path_chars(name, sha256, mime), i, j) ==> attachment_parsed(
                attachment_path_chars(name, sha256, mime),
                i,
                j,
                r,
            ),
    ensures
        r matches Ok(a) && a.name@ == name && a.mime@ == mime && a.sha256@ == hex_decoded(
            encode_utf8(sha256),
        ),
{
    lemma_attachment_path_roundtrip(name, sha256, mime);
    let p = attachment_path_chars(name, sha256, mime);
    let i = name.len() as int;
    let j = (name.len() + 1 + sha256.len()) as int;
    assert(first_two_colons(p, i, j));
    assert(attachment_parsed(p, i, j, r));
}

} // verus!
