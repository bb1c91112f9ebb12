//! The command line the tools accept, as plain data.

use vstd::prelude::*;

verus! {

/// Global options and the command to run.
#[derive(Debug, Clone)]
pub struct Cli {
    /// Output in JSON format
    pub json: bool,
    /// Suppress human-readable output
    pub quiet: bool,
    /// Override the data directory
    pub data_dir: Option<String>,
    /// Override the actor ID
    pub actor: Option<String>,
    /// Never route through the daemon
    pub no_daemon: bool,
    pub command: Command,
}

#[derive(Debug, Clone)]
pub enum Command {
    /// Initialize in the current repository
    Init,
    /// Actor management commands
    Actor { cmd: ActorCommand },
    /// Issue management commands
    Issue { cmd: IssueCommand },
    /// Database management commands
    Db { cmd: DbCommand },
    /// Export issues to file
    Export { format: ExportFormat, since: Option<String> },
    /// Rebuild local database from events
    Rebuild,
    /// Sync with remote repository
    Sync { remote: String, pull: bool, push: bool },
    /// Snapshot management
    Snapshot { cmd: SnapshotCommand },
    /// Daemon management
    Daemon { cmd: DaemonCommand },
    /// Lock management
    Lock { cmd: LockCommand },
    /// Health checks and auto-repair
    Doctor { fix: bool },
}

#[derive(Debug, Clone)]
pub enum ActorCommand {
    /// Create a new actor
    Init { label: Option<String> },
    /// List all actors
    List,
    /// Show actor details
    Show { id: Option<String> },
    /// Show current actor
    Current,
    /// Set the default actor
    Use { id: String },
}

#[derive(Debug, Clone)]
pub enum IssueCommand {
    /// Create a new issue
    Create { title: String, body: String, label: Vec<String> },
    /// List issues
    List { state: Option<String>, label: Option<String> },
    /// Show issue details
    Show { id: String },
    /// Update an issue
    Update { id: String, title: Option<String>, body: Option<String>, lock: bool },
    /// Add a comment to an issue
    Comment { id: String, body: String, lock: bool },
    /// Close an issue
    Close { id: String, lock: bool },
    /// Reopen an issue
    Reopen { id: String, lock: bool },
    /// Label operations
    Label { cmd: LabelCommand },
    /// Assignee operations
    Assignee { cmd: AssigneeCommand },
    /// Link operations
    Link { cmd: LinkCommand },
    /// Attachment operations
    Attachment { cmd: AttachmentCommand },
}

#[derive(Debug, Clone)]
pub enum LabelCommand {
    /// Add a label to an issue
    Add { id: String, label: String, lock: bool },
    /// Remove a label from an issue
    Remove { id: String, label: String, lock: bool },
}

#[derive(Debug, Clone)]
pub enum AssigneeCommand {
    /// Add an assignee to an issue
    Add { id: String, user: String, lock: bool },
    /// Remove an assignee from an issue
    Remove { id: String, user: String, lock: bool },
}

#[derive(Debug, Clone)]
pub enum LinkCommand {
    /// Add a link to an issue
    Add { id: String, url: String, note: Option<String>, lock: bool },
}

#[derive(Debug, Clone)]
pub enum AttachmentCommand {
    /// Add an attachment reference to an issue
    Add { id: String, name: String, sha256: String, mime: String, lock: bool },
}

#[derive(Debug, Clone)]
pub enum DbCommand {
    /// Show database statistics
    Stats,
    /// Check store integrity
    Check { verify_parents: bool },
    /// Verify event signatures
    Verify { verbose: bool },
}

#[derive(Debug, Clone)]
pub enum SnapshotCommand {
    /// Create a new snapshot
    Create,
    /// List all snapshots
    List,
    /// Garbage collect old snapshots
    Gc { keep: usize },
}

#[derive(Debug, Clone)]
pub enum DaemonCommand {
    /// Start the daemon in the background
    Start { idle_timeout: u64 },
    /// Show daemon status
    Status,
    /// Stop the daemon
    Stop,
}

#[derive(Debug, Clone)]
pub enum LockCommand {
    /// Acquire a lock on a resource
    Acquire { resource: String, ttl: u64 },
    /// Release a lock
    Release { resource: String },
    /// Renew a lock
    Renew { resource: String, ttl: u64 },
    /// Show lock status
    Status,
    /// Remove expired locks
    Gc,
}

#[derive(Debug, Clone, Copy, PartialEq, Eq, Structural)]
pub enum ExportFormat {
    Json,
    Md,
}

/// Source of actor selection.
#[derive(Debug, Clone, Copy, PartialEq, Eq, Structural)]
pub enum ActorSource {
    DataDir,
    Flag,
    RepoDefault,
    Auto,
}

impl ActorSource {
    pub open spec fn spec_str(self) -> Seq<char> {
        match self {
            ActorSource::DataDir => "env"@,
            ActorSource::Flag => "flag"@,
            ActorSource::RepoDefault => "repo_default"@,
            ActorSource::Auto => "auto"@,
        }
    }

    pub fn as_str(&self) -> (s: &'static str)
        ensures
            s@ == self.spec_str(),
    {
        match self {
            ActorSource::DataDir => "env",
            ActorSource::Flag => "flag",
            ActorSource::RepoDefault => "repo_default",
            ActorSource::Auto => "auto",
        }
    }
}

} // verus!
