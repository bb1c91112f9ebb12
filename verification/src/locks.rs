//! What lock checks report: the resources the CLI locks, how a check is
//! settled under the lock policy, the warnings it prints, the text of a
//! refusal, and the CLI's own checks before an issue write.

use vstd::prelude::*;
use vstd::string::*;
use crate::error::CliError;
use crate::text::{decimal_chars, decimal_string};

verus! {

/// The resource a write to an issue locks: `issue:<id>`.
pub fn issue_lock_resource(issue_id_hex: &str) -> (s: String)
    ensures
        s@ == "issue:"@ + issue_id_hex@,
{
    let mut s = String::from_str("issue:");
    s.append(issue_id_hex);
    s
}

/// The resource a push locks.
pub fn repo_lock_resource() -> (s: String)
    ensures
        s@ == "repo:global"@,
{
    String::from_str("repo:global")
}

/// A lock held by another actor on a resource being written.
pub struct LockConflict {
    pub resource: String,
    pub owner: String,
    /// Milliseconds until the lock expires.
    pub remaining_ms: u64,
}

/// `"<resource> (owned by <owner>, expires in <s>s)"`.
pub open spec fn conflict_text(c: LockConflict) -> Seq<char> {
    c.resource@ + " (owned by "@ + c.owner@ + ", expires in "@ + decimal_chars(
        (c.remaining_ms / 1000) as nat,
    ) + "s)"@
}

/// The texts of `cs` joined with `", "`.
pub open spec fn joined_conflicts(cs: Seq<LockConflict>) -> Seq<char>
    decreases cs.len(),
{
    if cs.len() == 0 {
        Seq::empty()
    } else if cs.len() == 1 {
        conflict_text(cs[0])
    } else {
        joined_conflicts(cs.drop_last()) + ", "@ + conflict_text(cs.last())
    }
}

fn conflict_string(c: &LockConflict) -> (s: String)
    ensures
        s@ == conflict_text(*c),
{
    let mut s = String::from_str(c.resource.as_str());
    s.append(" (owned by ");
    s.append(c.owner.as_str());
    s.append(", expires in ");
    s.append(decimal_string(c.remaining_ms / 1000).as_str());
    s.append("s)");
    s
}

/// The refusal when the lock policy blocks a write.
pub fn blocked_by_policy_message(conflicts: &Vec<LockConflict>) -> (s: String)
    ensures
        s@ == "Blocked by lock policy: "@ + joined_conflicts(conflicts@),
{
    let mut joined = String::new();
    let n = conflicts.len();
    let mut i: usize = 0;
    while i < n
        invariant
            n == conflicts@.len(),
            i <= n,
            joined@ == joined_conflicts(conflicts@.subrange(0, i as int)),
        decreases n - i,
    {
        proof {
            assert(conflicts@.subrange(0, i + 1).drop_last() =~= conflicts@.subrange(0, i as int));
        }
        if i > 0 {
            joined.append(", ");
        }
        joined.append(conflict_string(&conflicts[i]).as_str());
        i = i + 1;
    }
    proof {
        assert(conflicts@.subrange(0, n as int) =~= conflicts@);
    }
    let mut s = String::from_str("Blocked by lock policy: ");
    s.append(joined.as_str());
    s
}

/// What the lock manager reports for a resource about to be written.
pub enum LockCheckResult {
    /// No conflicting lock.
    Clear,
    /// Conflicting locks that the policy only warns about.
    Warning(Vec<LockConflict>),
    /// Conflicting locks that the policy refuses to write past.
    Blocked(Vec<LockConflict>),
}

/// Settle a lock check before a write. With the lock policy switched off the
/// write is clear whatever the manager would report. Otherwise `found` is
/// what opening the lock manager and asking it gave: a failure there is an
/// internal error, a blocking report is refused as a conflict with the
/// policy message, and anything else lets the write go ahead as reported.
pub fn check_lock(policy_off: bool, found: Result<LockCheckResult, String>) -> (r: Result<
    LockCheckResult,
    CliError,
>)
    ensures
        policy_off ==> r matches Ok(LockCheckResult::Clear),
        !policy_off ==> match found {
            Err(e) => r matches Err(CliError::Internal(m)) && m@ == e@,
            Ok(LockCheckResult::Blocked(cs)) => r matches Err(CliError::Conflict(msg)) && msg@
                == "Blocked by lock policy: "@ + joined_conflicts(cs@),
            Ok(LockCheckResult::Clear) => r matches Ok(LockCheckResult::Clear),
            Ok(LockCheckResult::Warning(cs)) => r matches Ok(LockCheckResult::Warning(ws)) && ws@
                == cs@,
        },
{
    if policy_off {
        return Ok(LockCheckResult::Clear);
    }
    match found {
        Err(e) => Err(CliError::Internal(e)),
        Ok(LockCheckResult::Blocked(cs)) => Err(CliError::Conflict(blocked_by_policy_message(&cs))),
        Ok(other) => Ok(other),
    }
}

/// The warning printed for a conflicting lock when the policy only warns.
pub fn lock_warning(c: &LockConflict) -> (s: String)
    ensures
        s@ == "Warning: "@ + c.resource@ + " is locked by "@ + c.owner@ + " (expires in "@ + decimal_chars(
            (c.remaining_ms / 1000) as nat,
        ) + "s)"@,
{
    let mut s = String::from_str("Warning: ");
    s.append(c.resource.as_str());
    s.append(" is locked by ");
    s.append(c.owner.as_str());
    s.append(" (expires in ");
    s.append(decimal_string(c.remaining_ms / 1000).as_str());
    s.append("s)");
    s
}

/// The refusal when a lock cannot be acquired because another actor holds it.
pub fn lock_held_message(resource: &str, owner: &str, expires_in_ms: u64) -> (s: String)
    ensures
        s@ == "Lock on "@ + resource@ + " is held by "@ + owner@ + " (expires in "@ + decimal_chars(
            (expires_in_ms / 1000) as nat,
        ) + "s)"@,
{
    let mut s = String::from_str("Lock on ");
    s.append(resource);
    s.append(" is held by ");
    s.append(owner);
    s.append(" (expires in ");
    s.append(decimal_string(expires_in_ms / 1000).as_str());
    s.append("s)");
    s
}

/// The refusal when an issue's lock, asked for with `--lock`, is held by someone else.
pub fn issue_lock_conflict_message(resource: &str, owner: &str, expires_in_ms: u64) -> (s: String)
    ensures
        s@ == "Cannot acquire lock on "@ + resource@ + " - held by "@ + owner@ + " (expires in "@
            + decimal_chars((expires_in_ms / 1000) as nat) + "s)"@,
{
    let mut s = String::from_str("Cannot acquire lock on ");
    s.append(resource);
    s.append(" - held by ");
    s.append(owner);
    s.append(" (expires in ");
    s.append(decimal_string(expires_in_ms / 1000).as_str());
    s.append("s)");
    s
}

/// The lock an issue write takes with `--lock`: the resource is named
/// either way, and it is released afterwards exactly when it was taken.
pub struct IssueLockPlan {
    pub resource: String,
    pub acquire: bool,
}

/// Plan the lock for a write to `issue_id_hex`.
pub fn issue_lock_plan(issue_id_hex: &str, should_lock: bool) -> (r: IssueLockPlan)
    ensures
        r.resource@ == "issue:"@ + issue_id_hex@,
        r.acquire == should_lock,
{
    IssueLockPlan { resource: issue_lock_resource(issue_id_hex), acquire: should_lock }
}

/// The refusal for an issue id that names no issue.
pub fn issue_not_found_message(id: &str) -> (s: String)
    ensures
        s@ == "Issue "@ + id@ + " not found"@,
{
    let mut s = String::from_str("Issue ");
    s.append(id);
    s.append(" not found");
    s
}

/// The CLI's update must be given `--title`, `--body` or both; with neither
/// it is refused before anything is opened.
pub fn check_update_flags(title: &Option<String>, body: &Option<String>) -> (r: Result<(), CliError>)
    ensures
        r is Ok <==> (title is Some || body is Some),
        r is Err ==> (r matches Err(CliError::InvalidArgs(m)) && m@
            == "At least one of --title or --body must be provided"@),
{
    if title.is_none() && body.is_none() {
        return Err(
            CliError::InvalidArgs(String::from_str("At least one of --title or --body must be provided")),
        );
    }
    Ok(())
}

} // verus!
