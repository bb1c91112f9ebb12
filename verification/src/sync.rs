//! Which halves of a sync run, as the CLI and the daemon read the flags.

use vstd::prelude::*;
use vstd::string::*;
use crate::text::{decimal_chars, decimal_string};

verus! {

/// Which halves of a sync run.
#[derive(Debug, Clone, Copy, PartialEq, Eq, Structural)]
pub enum SyncPlan {
    PullOnly,
    PushOnly,
    Full,
}

/// The plan for a pair of "only this half" flags: a flag given alone picks
/// its half; with neither flag, or both, the sync pulls and pushes.
pub open spec fn spec_sync_plan(pull: bool, push: bool) -> SyncPlan {
    if pull && !push {
        SyncPlan::PullOnly
    } else if push && !pull {
        SyncPlan::PushOnly
    } else {
        SyncPlan::Full
    }
}

/// The daemon's reading of the sync flags.
pub fn sync_plan(pull: bool, push: bool) -> (r: SyncPlan)
    ensures
        r == spec_sync_plan(pull, push),
{
    let do_pull = pull || !push;
    let do_push = push || !pull;
    if do_pull && !do_push {
        SyncPlan::PullOnly
    } else if do_push && !do_pull {
        SyncPlan::PushOnly
    } else {
        SyncPlan::Full
    }
}

/// The command line's reading of `--pull` and `--push`: each flag turns the
/// other half off, and when both halves are off the full sync runs.
pub fn cli_sync_plan(pull_only: bool, push_only: bool) -> (r: SyncPlan)
    ensures
        r == spec_sync_plan(pull_only, push_only),
{
    let do_pull = !push_only;
    let do_push = !pull_only;
    if do_pull && !do_push {
        SyncPlan::PullOnly
    } else if do_push && !do_pull {
        SyncPlan::PushOnly
    } else {
        SyncPlan::Full
    }
}

/// The command line checks the repository lock before a sync unless
/// `--pull` was given.
pub fn needs_push_lock_check(pull_only: bool, push_only: bool) -> (r: bool)
    ensures
        r == !pull_only,
{
    !pull_only
}

/// Every plan that pushes is preceded by the lock check, except the full
/// sync asked for with both flags, which pushes without it.
pub proof fn lemma_push_lock_checked(pull_only: bool, push_only: bool)
    ensures
        spec_sync_plan(pull_only, push_only) == SyncPlan::PushOnly ==> !pull_only,
        spec_sync_plan(pull_only, push_only) == SyncPlan::Full ==> (!pull_only <==> !push_only),
        spec_sync_plan(pull_only, push_only) == SyncPlan::PullOnly ==> pull_only,
{
}

/// A pull that brought events names how many and from where; one that
/// brought none says the local copy is current.
pub open spec fn spec_pull_message(events: u64, remote: Seq<char>) -> Seq<char> {
    if events > 0 {
        "Pulled "@ + decimal_chars(events as nat) + " events from "@ + remote
    } else {
        "Already up to date with "@ + remote
    }
}

/// The human-readable line for a pull.
pub fn pull_message(events: u64, remote: &str) -> (s: String)
    ensures
        s@ == spec_pull_message(events, remote@),
{
    if events > 0 {
        let mut s = String::from_str("Pulled ");
        s.append(decimal_string(events).as_str());
        s.append(" events from ");
        s.append(remote);
        s
    } else {
        let mut s = String::from_str("Already up to date with ");
        s.append(remote);
        s
    }
}

/// The human-readable line for a push: where it went, or why it failed.
pub fn push_message(success: bool, remote: &str, message: &str) -> (s: String)
    ensures
        success ==> s@ == "Pushed to "@ + remote@,
        !success ==> s@ == "Push failed: "@ + message@,
{
    if success {
        let mut s = String::from_str("Pushed to ");
        s.append(remote);
        s
    } else {
        let mut s = String::from_str("Push failed: ");
        s.append(message);
        s
    }
}

/// The line reporting that a push was rebased over the remote.
pub fn rebase_message(events_rebased: u64) -> (s: String)
    ensures
        s@ == "Conflict resolved: rebased "@ + decimal_chars(events_rebased as nat)
            + " local events on top of remote"@,
{
    let mut s = String::from_str("Conflict resolved: rebased ");
    s.append(decimal_string(events_rebased).as_str());
    s.append(" local events on top of remote");
    s
}

/// A sync pulls unless only pushing was asked for, and pushes unless only
/// pulling was asked for.
pub proof fn lemma_sync_halves(pull: bool, push: bool)
    ensures
        spec_sync_plan(pull, push) != SyncPlan::PushOnly <==> (pull || !push),
        spec_sync_plan(pull, push) != SyncPlan::PullOnly <==> (push || !pull),
{
}

} // verus!
