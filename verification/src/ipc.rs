//! Commands that travel from the CLI to the daemon.

use vstd::prelude::*;

verus! {

/// A command sent to the daemon.
#[derive(Debug, Clone)]
pub enum IpcCommand {
    IssueList { state: Option<String>, label: Option<String> },
    IssueShow { issue_id: String },
    IssueCreate { title: String, body: String, labels: Vec<String> },
    IssueUpdate { issue_id: String, title: Option<String>, body: Option<String> },
    IssueComment { issue_id: String, body: String },
    IssueClose { issue_id: String },
    IssueReopen { issue_id: String },
    IssueLabel { issue_id: String, add: Vec<String>, remove: Vec<String> },
    IssueAssign { issue_id: String, add: Vec<String>, remove: Vec<String> },
    IssueLink { issue_id: String, url: String, note: Option<String> },
    IssueAttach { issue_id: String, file_path: String },
    IssueDepAdd { issue_id: String, target_id: String, dep_type: String },
    IssueDepRemove { issue_id: String, target_id: String, dep_type: String },
    IssueDepList { issue_id: String, reverse: bool },
    IssueDepTopo { state: Option<String>, label: Option<String> },
    DbStats,
    Rebuild,
    Export { format: String, since: Option<String> },
    DaemonStatus,
    DaemonStop,
    Sync { remote: String, pull: bool, push: bool },
    SnapshotCreate,
    SnapshotList,
    SnapshotGc { keep: u32 },
}

/// An `IpcCommand` with its text as character sequences.
pub enum IpcCommandView {
    IssueList { state: Option<Seq<char>>, label: Option<Seq<char>> },
    IssueShow { issue_id: Seq<char> },
    IssueCreate { title: Seq<char>, body: Seq<char>, labels: Seq<Seq<char>> },
    IssueUpdate { issue_id: Seq<char>, title: Option<Seq<char>>, body: Option<Seq<char>> },
    IssueComment { issue_id: Seq<char>, body: Seq<char> },
    IssueClose { issue_id: Seq<char> },
    IssueReopen { issue_id: Seq<char> },
    IssueLabel { issue_id: Seq<char>, add: Seq<Seq<char>>, remove: Seq<Seq<char>> },
    IssueAssign { issue_id: Seq<char>, add: Seq<Seq<char>>, remove: Seq<Seq<char>> },
    IssueLink { issue_id: Seq<char>, url: Seq<char>, note: Option<Seq<char>> },
    IssueAttach { issue_id: Seq<char>, file_path: Seq<char> },
    IssueDepAdd { issue_id: Seq<char>, target_id: Seq<char>, dep_type: Seq<char> },
    IssueDepRemove { issue_id: Seq<char>, target_id: Seq<char>, dep_type: Seq<char> },
    IssueDepList { issue_id: Seq<char>, reverse: bool },
    IssueDepTopo { state: Option<Seq<char>>, label: Option<Seq<char>> },
    DbStats,
    Rebuild,
    Export { format: Seq<char>, since: Option<Seq<char>> },
    DaemonStatus,
    DaemonStop,
    Sync { remote: Seq<char>, pull: bool, push: bool },
    SnapshotCreate,
    SnapshotList,
    SnapshotGc { keep: u32 },
}

pub open spec fn opt_view(o: Option<String>) -> Option<Seq<char>> {
    match o {
        Some(s) => Some(s@),
        None => None,
    }
}

pub open spec fn strings_view(v: Vec<String>) -> Seq<Seq<char>> {
    v@.map_values(|s: String| s@)
}

impl View for IpcCommand {
    type V = IpcCommandView;

    open spec fn view(&self) -> IpcCommandView {
        match *self {
            IpcCommand::IssueList { state, label } => IpcCommandView::IssueList {
                state: opt_view(state),
                label: opt_view(label),
            },
            IpcCommand::IssueShow { issue_id } => IpcCommandView::IssueShow { issue_id: issue_id@ },
            IpcCommand::IssueCreate { title, body, labels } => IpcCommandView::IssueCreate {
                title: title@,
                body: body@,
                labels: strings_view(labels),
            },
            IpcCommand::IssueUpdate { issue_id, title, body } => IpcCommandView::IssueUpdate {
                issue_id: issue_id@,
                title: opt_view(title),
                body: opt_view(body),
            },
            IpcCommand::IssueComment { issue_id, body } => IpcCommandView::IssueComment {
                issue_id: issue_id@,
                body: body@,
            },
            IpcCommand::IssueClose { issue_id } => IpcCommandView::IssueClose { issue_id: issue_id@ },
            IpcCommand::IssueReopen { issue_id } => IpcCommandView::IssueReopen { issue_id: issue_id@ },
            IpcCommand::IssueLabel { issue_id, add, remove } => IpcCommandView::IssueLabel {
                issue_id: issue_id@,
                add: strings_view(add),
                remove: strings_view(remove),
            },
            IpcCommand::IssueAssign { issue_id, add, remove } => IpcCommandView::IssueAssign {
                issue_id: issue_id@,
                add: strings_view(add),
                remove: strings_view(remove),
            },
            IpcCommand::IssueLink { issue_id, url, note } => IpcCommandView::IssueLink {
                issue_id: issue_id@,
                url: url@,
                note: opt_view(note),
            },
            IpcCommand::IssueAttach { issue_id, file_path } => IpcCommandView::IssueAttach {
                issue_id: issue_id@,
                file_path: file_path@,
            },
            IpcCommand::IssueDepAdd { issue_id, target_id, dep_type } => IpcCommandView::IssueDepAdd {
                issue_id: issue_id@,
                target_id: target_id@,
                dep_type: dep_type@,
            },
            IpcCommand::IssueDepRemove { issue_id, target_id, dep_type } => IpcCommandView::IssueDepRemove {
                issue_id: issue_id@,
                target_id: target_id@,
                dep_type: dep_type@,
            },
            IpcCommand::IssueDepList { issue_id, reverse } => IpcCommandView::IssueDepList {
                issue_id: issue_id@,
                reverse,
            },
            IpcCommand::IssueDepTopo { state, label } => IpcCommandView::IssueDepTopo {
                state: opt_view(state),
                label: opt_view(label),
            },
            IpcCommand::DbStats => IpcCommandView::DbStats,
            IpcCommand::Rebuild => IpcCommandView::Rebuild,
            IpcCommand::Export { format, since } => IpcCommandView::Export {
                format: format@,
                since: opt_view(since),
            },
            IpcCommand::DaemonStatus => IpcCommandView::DaemonStatus,
            IpcCommand::DaemonStop => IpcCommandView::DaemonStop,
            IpcCommand::Sync { remote, pull, push } => IpcCommandView::Sync { remote: remote@, pull, push },
            IpcCommand::SnapshotCreate => IpcCommandView::SnapshotCreate,
            IpcCommand::SnapshotList => IpcCommandView::SnapshotList,
            IpcCommand::SnapshotGc { keep } => IpcCommandView::SnapshotGc { keep },
        }
    }
}

/// A copy of `o`.
pub fn clone_opt(o: &Option<String>) -> (r: Option<String>)
    ensures
        opt_view(r) == opt_view(*o),
{
    match o {
        Some(s) => Some(s.clone()),
        None => None,
    }
}

/// A copy of `v`.
pub fn clone_strings(v: &Vec<String>) -> (r: Vec<String>)
    ensures
        strings_view(r) == strings_view(*v),
{
    let mut out: Vec<String> = Vec::new();
    let n = v.len();
    let mut i: usize = 0;
    while i < n
        invariant
            n == v@.len(),
            i <= n,
            out@.len() == i,
            forall|k: int| 0 <= k < i ==> #[trigger] out@[k]@ == v@[k]@,
        decreases n - i,
    {
        out.push(v[i].clone());
        i = i + 1;
    }
    proof {
        assert(strings_view(out) =~= strings_view(*v));
    }
    out
}

} // verus!
