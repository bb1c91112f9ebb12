//! Health checks: what each probe of the repository is reported as, and
//! the verdict over all of them.

use vstd::prelude::*;
use vstd::string::*;
use crate::ipc::strings_view;
use crate::router::ExecutionMode;
use crate::text::{
    clipped_prefix, clipped_prefix_chars, contains_chars, contains_str, decimal_chars,
    decimal_string, prefix_cut_ok, same_text,
};

verus! {

/// One health check's outcome.
pub struct CheckResult {
    pub id: String,
    /// `ok`, `warn` or `error`.
    pub status: String,
    pub message: String,
    /// Steps that would repair what the check found.
    pub plan: Vec<String>,
}

/// The texts of a list of string slices.
pub open spec fn strs_view(v: Seq<&str>) -> Seq<Seq<char>> {
    v.map_values(|s: &str| s@)
}

/// `r` is the check `id` with the given status, message and plan.
pub open spec fn check_is(
    r: CheckResult,
    id: Seq<char>,
    status: Seq<char>,
    message: Seq<char>,
    plan: Seq<Seq<char>>,
) -> bool {
    &&& r.id@ == id
    &&& r.status@ == status
    &&& r.message@ == message
    &&& strings_view(r.plan) == plan
}

fn owned_plan(plan: &Vec<&str>) -> (r: Vec<String>)
    ensures
        strings_view(r) == strs_view(plan@),
{
    let mut out: Vec<String> = Vec::new();
    let n = plan.len();
    let mut i: usize = 0;
    while i < n
        invariant
            n == plan@.len(),
            i <= n,
            out@.len() == i,
            forall|k: int| 0 <= k < i ==> #[trigger] out@[k]@ == plan@[k]@,
        decreases n - i,
    {
        out.push(String::from_str(plan[i]));
        i = i + 1;
    }
    proof {
        assert(strings_view(out) =~= strs_view(plan@));
    }
    out
}

impl CheckResult {
    /// A passing check.
    pub fn ok(id: &str, message: &str) -> (r: Self)
        ensures
            check_is(r, id@, "ok"@, message@, Seq::empty()),
    {
        let r = CheckResult {
            id: String::from_str(id),
            status: String::from_str("ok"),
            message: String::from_str(message),
            plan: Vec::new(),
        };
        proof {
            assert(strings_view(r.plan) =~= Seq::<Seq<char>>::empty());
        }
        r
    }

    /// A check that found something worth attention.
    pub fn warn(id: &str, message: &str, plan: Vec<&str>) -> (r: Self)
        ensures
            check_is(r, id@, "warn"@, message@, strs_view(plan@)),
    {
        CheckResult {
            id: String::from_str(id),
            status: String::from_str("warn"),
            message: String::from_str(message),
            plan: owned_plan(&plan),
        }
    }

    /// A failing check.
    pub fn error(id: &str, message: &str, plan: Vec<&str>) -> (r: Self)
        ensures
            check_is(r, id@, "error"@, message@, strs_view(plan@)),
    {
        CheckResult {
            id: String::from_str(id),
            status: String::from_str("error"),
            message: String::from_str(message),
            plan: owned_plan(&plan),
        }
    }
}

/// The one-element plan `[a]`.
pub open spec fn plan1(a: Seq<char>) -> Seq<Seq<char>> {
    seq![a]
}

/// The two-element plan `[a, b]`.
pub open spec fn plan2(a: Seq<char>, b: Seq<char>) -> Seq<Seq<char>> {
    seq![a, b]
}

/// The git repository check, from whether the repository context resolved
/// and, when it did, whether its `.git` directory exists.
pub fn check_git_repo(git_dir_exists: Option<bool>) -> (r: CheckResult)
    ensures
        git_dir_exists == Some(true) ==> check_is(
            r,
            "git_repo"@,
            "ok"@,
            "Git repository is valid"@,
            Seq::empty(),
        ),
        git_dir_exists == Some(false) ==> check_is(
            r,
            "git_repo"@,
            "error"@,
            "Not a git repository"@,
            plan1("Run 'git init'"@),
        ),
        git_dir_exists is None ==> check_is(
            r,
            "git_repo"@,
            "error"@,
            "Cannot resolve repository context"@,
            plan2("Ensure you are in a git repository"@, "Run 'grite init'"@),
        ),
{
    match git_dir_exists {
        Some(exists) => if exists {
            CheckResult::ok("git_repo", "Git repository is valid")
        } else {
            let plan = vec!["Run 'git init'"];
            proof {
                assert(strs_view(plan@) =~= plan1("Run 'git init'"@));
            }
            CheckResult::error("git_repo", "Not a git repository", plan)
        },
        None => {
            let plan = vec!["Ensure you are in a git repository", "Run 'grite init'"];
            proof {
                assert(strs_view(plan@) =~= plan2(
                    "Ensure you are in a git repository"@,
                    "Run 'grite init'"@,
                ));
            }
            CheckResult::error("git_repo", "Cannot resolve repository context", plan)
        },
    }
}

/// What probing the write-ahead log's ref found.
pub enum WalProbe {
    /// The repository context did not resolve.
    NoContext,
    /// The log manager could not be opened; the text is the error.
    OpenFailed(String),
    /// The ref could not be read; the text is the error.
    HeadFailed(String),
    /// The ref exists.
    HeadPresent,
    /// No ref yet.
    HeadAbsent,
}

/// The write-ahead log check.
pub fn check_wal_ref(probe: &WalProbe) -> (r: CheckResult)
    ensures
        *probe is NoContext ==> check_is(
            r,
            "wal_ref"@,
            "warn"@,
            "Cannot check WAL - no context"@,
            plan1("Fix git_repo first"@),
        ),
        *probe is HeadPresent ==> check_is(
            r,
            "wal_ref"@,
            "ok"@,
            "WAL ref exists and is readable"@,
            Seq::empty(),
        ),
        *probe is HeadAbsent ==> check_is(
            r,
            "wal_ref"@,
            "ok"@,
            "WAL ref not yet created (empty)"@,
            Seq::empty(),
        ),
        *probe matches WalProbe::HeadFailed(e) ==> check_is(
            r,
            "wal_ref"@,
            "error"@,
            "WAL ref is corrupted: "@ + e@,
            plan1("Run 'grite doctor --fix' to rebuild"@),
        ),
        *probe matches WalProbe::OpenFailed(e) ==> check_is(
            r,
            "wal_ref"@,
            "error"@,
            "Cannot open WAL manager: "@ + e@,
            plan1("Check git repository integrity"@),
        ),
{
    match probe {
        WalProbe::NoContext => {
            let plan = vec!["Fix git_repo first"];
            proof {
                assert(strs_view(plan@) =~= plan1("Fix git_repo first"@));
            }
            CheckResult::warn("wal_ref", "Cannot check WAL - no context", plan)
        },
        WalProbe::HeadPresent => CheckResult::ok("wal_ref", "WAL ref exists and is readable"),
        WalProbe::HeadAbsent => CheckResult::ok("wal_ref", "WAL ref not yet created (empty)"),
        WalProbe::HeadFailed(e) => {
            let mut m = String::from_str("WAL ref is corrupted: ");
            m.append(e.as_str());
            let plan = vec!["Run 'grite doctor --fix' to rebuild"];
            proof {
                assert(strs_view(plan@) =~= plan1("Run 'grite doctor --fix' to rebuild"@));
            }
            CheckResult::error("wal_ref", m.as_str(), plan)
        },
        WalProbe::OpenFailed(e) => {
            let mut m = String::from_str("Cannot open WAL manager: ");
            m.append(e.as_str());
            let plan = vec!["Check git repository integrity"];
            proof {
                assert(strs_view(plan@) =~= plan1("Check git repository integrity"@));
            }
            CheckResult::error("wal_ref", m.as_str(), plan)
        },
    }
}

/// The actor check, from the resolved actor id (`None` when the repository
/// context did not resolve). The id is shown by its first eight bytes, so
/// those must not split a character.
pub fn check_actor_config(actor_id: Option<&str>) -> (r: CheckResult)
    requires
        actor_id matches Some(a) ==> a.spec_bytes().len() <= usize::MAX && prefix_cut_ok(a, 8),
    ensures
        actor_id is None ==> check_is(
            r,
            "actor_config"@,
            "warn"@,
            "Cannot check actor config - no context"@,
            plan1("Run 'grite init' first"@),
        ),
        actor_id matches Some(a) ==> (if a@.len() == 0 {
            check_is(
                r,
                "actor_config"@,
                "warn"@,
                "No actor configured"@,
                plan1("Run 'grite actor init'"@),
            )
        } else {
            check_is(
                r,
                "actor_config"@,
                "ok"@,
                "Actor configured: "@ + clipped_prefix_chars(a@, 8),
                Seq::empty(),
            )
        }),
{
    match actor_id {
        Some(a) => {
            if a.unicode_len() == 0 {
                let plan = vec!["Run 'grite actor init'"];
                proof {
                    assert(strs_view(plan@) =~= plan1("Run 'grite actor init'"@));
                }
                CheckResult::warn("actor_config", "No actor configured", plan)
            } else {
                let mut m = String::from_str("Actor configured: ");
                m.append(clipped_prefix(a, 8));
                CheckResult::ok("actor_config", m.as_str())
            }
        },
        None => {
            let plan = vec!["Run 'grite init' first"];
            proof {
                assert(strs_view(plan@) =~= plan1("Run 'grite init' first"@));
            }
            CheckResult::warn("actor_config", "Cannot check actor config - no context", plan)
        },
    }
}

/// What probing the event store found.
pub enum StoreProbe {
    /// The repository context did not resolve.
    NoContext,
    /// A running daemon holds the store's lock.
    HeldByDaemon,
    /// The store could not be opened; the text is the error.
    OpenFailed(String),
    /// The integrity check ran.
    Checked { healthy: bool, events_checked: u64, corrupt: u64 },
    /// The integrity check itself failed; the text is the error.
    CheckFailed(String),
}

/// The store integrity check, and whether a rebuild would repair it.
pub fn check_store(probe: &StoreProbe) -> (r: (CheckResult, bool))
    ensures
        *probe is NoContext ==> check_is(
            r.0,
            "store_integrity"@,
            "warn"@,
            "Cannot check store - no context"@,
            plan1("Fix git_repo first"@),
        ) && !r.1,
        *probe is HeldByDaemon ==> check_is(
            r.0,
            "store_integrity"@,
            "ok"@,
            "Store held by running daemon"@,
            Seq::empty(),
        ) && !r.1,
        *probe matches StoreProbe::OpenFailed(e) ==> check_is(
            r.0,
            "store_integrity"@,
            "error"@,
            "Cannot open store: "@ + e@,
            plan1("Run 'grite doctor --fix' to rebuild"@),
        ) && r.1,
        *probe matches StoreProbe::Checked { healthy, events_checked, corrupt } ==> (if healthy {
            check_is(
                r.0,
                "store_integrity"@,
                "ok"@,
                decimal_chars(events_checked as nat) + " events verified"@,
                Seq::empty(),
            ) && !r.1
        } else {
            check_is(
                r.0,
                "store_integrity"@,
                "error"@,
                decimal_chars(corrupt as nat) + " corrupt events found out of "@ + decimal_chars(
                    events_checked as nat,
                ),
                plan1("Run 'grite doctor --fix' to rebuild from WAL"@),
            ) && r.1
        }),
        *probe matches StoreProbe::CheckFailed(e) ==> check_is(
            r.0,
            "store_integrity"@,
            "error"@,
            "Integrity check failed: "@ + e@,
            plan1("Run 'grite doctor --fix' to rebuild"@),
        ) && r.1,
{
    match probe {
        StoreProbe::NoContext => {
            let plan = vec!["Fix git_repo first"];
            proof {
                assert(strs_view(plan@) =~= plan1("Fix git_repo first"@));
            }
            (CheckResult::warn("store_integrity", "Cannot check store - no context", plan), false)
        },
        StoreProbe::HeldByDaemon => (
            CheckResult::ok("store_integrity", "Store held by running daemon"),
            false,
        ),
        StoreProbe::OpenFailed(e) => {
            let mut m = String::from_str("Cannot open store: ");
            m.append(e.as_str());
            let plan = vec!["Run 'grite doctor --fix' to rebuild"];
            proof {
                assert(strs_view(plan@) =~= plan1("Run 'grite doctor --fix' to rebuild"@));
            }
            (CheckResult::error("store_integrity", m.as_str(), plan), true)
        },
        StoreProbe::Checked { healthy, events_checked, corrupt } => {
            if *healthy {
                let mut m = decimal_string(*events_checked);
                m.append(" events verified");
                (CheckResult::ok("store_integrity", m.as_str()), false)
            } else {
                let mut m = decimal_string(*corrupt);
                m.append(" corrupt events found out of ");
                m.append(decimal_string(*events_checked).as_str());
                let plan = vec!["Run 'grite doctor --fix' to rebuild from WAL"];
                proof {
                    assert(strs_view(plan@) =~= plan1(
                        "Run 'grite doctor --fix' to rebuild from WAL"@,
                    ));
                }
                (CheckResult::error("store_integrity", m.as_str(), plan), true)
            }
        },
        StoreProbe::CheckFailed(e) => {
            let mut m = String::from_str("Integrity check failed: ");
            m.append(e.as_str());
            let plan = vec!["Run 'grite doctor --fix' to rebuild"];
            proof {
                assert(strs_view(plan@) =~= plan1("Run 'grite doctor --fix' to rebuild"@));
            }
            (CheckResult::error("store_integrity", m.as_str(), plan), true)
        },
    }
}

/// What probing the rebuild statistics found.
pub enum RebuildProbe {
    /// The repository context did not resolve.
    NoContext,
    /// A running daemon holds the store's lock.
    HeldByDaemon,
    /// The store could not be opened.
    OpenFailed,
    /// The statistics were read.
    Stats { rebuild_recommended: bool, events_since_rebuild: u64, days_since_rebuild: Option<u64> },
    /// The statistics could not be read; the text is the error.
    StatsFailed(String),
}

/// `" (N days ago)"` when the day count is known, else nothing.
pub open spec fn days_ago_text(days: Option<u64>) -> Seq<char> {
    match days {
        Some(d) => " ("@ + decimal_chars(d as nat) + " days ago)"@,
        None => Seq::empty(),
    }
}

/// The rebuild threshold check.
pub fn check_rebuild_threshold(probe: &RebuildProbe) -> (r: CheckResult)
    ensures
        *probe is NoContext ==> check_is(
            r,
            "rebuild_threshold"@,
            "warn"@,
            "Cannot check rebuild threshold - no context"@,
            plan1("Fix git_repo first"@),
        ),
        *probe is HeldByDaemon ==> check_is(
            r,
            "rebuild_threshold"@,
            "ok"@,
            "Rebuild threshold managed by running daemon"@,
            Seq::empty(),
        ),
        *probe is OpenFailed ==> check_is(
            r,
            "rebuild_threshold"@,
            "warn"@,
            "Cannot check rebuild threshold - cannot open store"@,
            plan1("Fix store_integrity first"@),
        ),
        *probe matches RebuildProbe::Stats { rebuild_recommended, events_since_rebuild, days_since_rebuild }
            ==> (if rebuild_recommended {
            check_is(
                r,
                "rebuild_threshold"@,
                "warn"@,
                decimal_chars(events_since_rebuild as nat) + " events since last rebuild"@
                    + days_ago_text(days_since_rebuild),
                plan1("Run 'grite rebuild' to optimize performance"@),
            )
        } else if events_since_rebuild > 0 {
            check_is(
                r,
                "rebuild_threshold"@,
                "ok"@,
                decimal_chars(events_since_rebuild as nat) + " events since last rebuild"@,
                Seq::empty(),
            )
        } else {
            check_is(
                r,
                "rebuild_threshold"@,
                "ok"@,
                "No events since last rebuild"@,
                Seq::empty(),
            )
        }),
        *probe matches RebuildProbe::StatsFailed(e) ==> check_is(
            r,
            "rebuild_threshold"@,
            "warn"@,
            "Cannot check rebuild stats: "@ + e@,
            Seq::empty(),
        ),
{
    match probe {
        RebuildProbe::NoContext => {
            let plan = vec!["Fix git_repo first"];
            proof {
                assert(strs_view(plan@) =~= plan1("Fix git_repo first"@));
            }
            CheckResult::warn("rebuild_threshold", "Cannot check rebuild threshold - no context", plan)
        },
        RebuildProbe::HeldByDaemon => CheckResult::ok(
            "rebuild_threshold",
            "Rebuild threshold managed by running daemon",
        ),
        RebuildProbe::OpenFailed => {
            let plan = vec!["Fix store_integrity first"];
            proof {
                assert(strs_view(plan@) =~= plan1("Fix store_integrity first"@));
            }
            CheckResult::warn(
                "rebuild_threshold",
                "Cannot check rebuild threshold - cannot open store",
                plan,
            )
        },
        RebuildProbe::Stats { rebuild_recommended, events_since_rebuild, days_since_rebuild } => {
            if *rebuild_recommended {
                let mut m = decimal_string(*events_since_rebuild);
                m.append(" events since last rebuild");
                match days_since_rebuild {
                    Some(d) => {
                        m.append(" (");
                        m.append(decimal_string(*d).as_str());
                        m.append(" days ago)");
                    },
                    None => {},
                }
                let plan = vec!["Run 'grite rebuild' to optimize performance"];
                proof {
                    assert(strs_view(plan@) =~= plan1(
                        "Run 'grite rebuild' to optimize performance"@,
                    ));
                    assert(m@ =~= decimal_chars(*events_since_rebuild as nat)
                        + " events since last rebuild"@ + days_ago_text(*days_since_rebuild));
                }
                CheckResult::warn("rebuild_threshold", m.as_str(), plan)
            } else if *events_since_rebuild > 0 {
                let mut m = decimal_string(*events_since_rebuild);
                m.append(" events since last rebuild");
                CheckResult::ok("rebuild_threshold", m.as_str())
            } else {
                CheckResult::ok("rebuild_threshold", "No events since last rebuild")
            }
        },
        RebuildProbe::StatsFailed(e) => {
            let mut m = String::from_str("Cannot check rebuild stats: ");
            m.append(e.as_str());
            let plan: Vec<&str> = Vec::new();
            proof {
                assert(strs_view(plan@) =~= Seq::<Seq<char>>::empty());
            }
            CheckResult::warn("rebuild_threshold", m.as_str(), plan)
        },
    }
}

/// Whether the store is held by a daemon: a daemon answers for the data
/// directory, or holds its lock without answering. `None` when the
/// repository context does not resolve.
pub fn store_held_by_daemon(mode: Option<ExecutionMode>) -> (r: bool)
    ensures
        r == (mode == Some(ExecutionMode::Daemon) || mode == Some(ExecutionMode::Blocked)),
{
    match mode {
        Some(m) => match m {
            ExecutionMode::Daemon => true,
            ExecutionMode::Blocked => true,
            ExecutionMode::Local => false,
        },
        None => false,
    }
}

/// Event ids as byte strings.
pub open spec fn ids_view(v: Seq<Vec<u8>>) -> Seq<Seq<u8>> {
    v.map_values(|x: Vec<u8>| x@)
}

/// The event ids of each legacy store.
pub open spec fn sleds_view(v: Seq<Vec<Vec<u8>>>) -> Seq<Seq<Seq<u8>>> {
    v.map_values(|e: Vec<Vec<u8>>| ids_view(e@))
}

fn same_bytes(a: &Vec<u8>, b: &Vec<u8>) -> (r: bool)
    ensures
        r == (a@ == b@),
{
    if a.len() != b.len() {
        return false;
    }
    let n = a.len();
    let mut i: usize = 0;
    while i < n
        invariant
            n == a@.len(),
            n == b@.len(),
            i <= n,
            forall|k: int| 0 <= k < i ==> a@[k] == b@[k],
        decreases n - i,
    {
        if a[i] != b[i] {
            return false;
        }
        i = i + 1;
    }
    proof {
        assert(a@ =~= b@);
    }
    true
}

/// Whether `id` is among `known`.
pub fn contains_id(known: &Vec<Vec<u8>>, id: &Vec<u8>) -> (r: bool)
    ensures
        r == ids_view(known@).contains(id@),
{
    let n = known.len();
    let mut i: usize = 0;
    while i < n
        invariant
            n == known@.len(),
            i <= n,
            forall|k: int| 0 <= k < i ==> known@[k]@ != id@,
        decreases n - i,
    {
        if same_bytes(&known[i], id) {
            proof {
                assert(ids_view(known@)[i as int] == id@);
            }
            return true;
        }
        i = i + 1;
    }
    proof {
        if ids_view(known@).contains(id@) {
            let k = choose|k: int| 0 <= k < ids_view(known@).len() && ids_view(known@)[k] == id@;
            assert(known@[k]@ == id@);
        }
    }
    false
}

/// Positions as integers.
pub open spec fn positions_view(v: Seq<usize>) -> Seq<int> {
    v.map_values(|i: usize| i as int)
}

/// The positions, in order, of the events whose ids are not in `known`.
pub open spec fn missing_positions(known: Seq<Seq<u8>>, events: Seq<Seq<u8>>) -> Seq<int>
    decreases events.len(),
{
    if events.len() == 0 {
        Seq::empty()
    } else {
        let rest = missing_positions(known, events.drop_last());
        if known.contains(events.last()) {
            rest
        } else {
            rest.push(events.len() - 1)
        }
    }
}

/// The positions of `events` that `known` lacks: each such position occurs,
/// in increasing order, and no other.
pub proof fn lemma_missing_positions(known: Seq<Seq<u8>>, events: Seq<Seq<u8>>)
    ensures
        forall|k: int|
            0 <= k < events.len() ==> (missing_positions(known, events).contains(k) <==> !known.contains(
                events[k],
            )),
        forall|p: int|
            #![trigger missing_positions(known, events)[p]]
            0 <= p < missing_positions(known, events).len() ==> 0 <= missing_positions(known, events)[p]
                < events.len(),
        forall|p: int, q: int|
            0 <= p < q < missing_positions(known, events).len() ==> missing_positions(known, events)[p]
                < missing_positions(known, events)[q],
        missing_positions(known, events).len() <= events.len(),
    decreases events.len(),
{
    if events.len() > 0 {
        let init = events.drop_last();
        lemma_missing_positions(known, init);
        let rest = missing_positions(known, init);
        assert forall|k: int| 0 <= k < events.len() implies (missing_positions(
            known,
            events,
        ).contains(k) <==> !known.contains(events[k])) by {
            if k < events.len() - 1 {
                assert(init[k] == events[k]);
                if !known.contains(events.last()) {
                    let full = rest.push(events.len() - 1);
                    if full.contains(k) {
                        let p = choose|p: int| 0 <= p < full.len() && #[trigger] full[p] == k;
                        if p < rest.len() {
                            assert(rest[p] == k);
                            assert(rest.contains(k));
                        }
                    }
                    if rest.contains(k) {
                        let p = choose|p: int| 0 <= p < rest.len() && #[trigger] rest[p] == k;
                        assert(rest.push(events.len() - 1)[p] == k);
                    }
                }
            } else {
                if known.contains(events.last()) {
                    if rest.contains(k) {
                        let p = choose|p: int| 0 <= p < rest.len() && #[trigger] rest[p] == k;
                        assert(rest[p] < init.len());
                    }
                } else {
                    assert(rest.push(events.len() - 1)[rest.len() as int] == k);
                }
            }
        }
    }
}

/// The positions of the events in `events` that `known` lacks.
pub fn unmerged_indices(known: &Vec<Vec<u8>>, events: &Vec<Vec<u8>>) -> (r: Vec<usize>)
    ensures
        positions_view(r@) == missing_positions(ids_view(known@), ids_view(events@)),
{
    let n = events.len();
    let mut out: Vec<usize> = Vec::new();
    let mut i: usize = 0;
    while i < n
        invariant
            n == events@.len(),
            i <= n,
            positions_view(out@) == missing_positions(
                ids_view(known@),
                ids_view(events@).subrange(0, i as int),
            ),
        decreases n - i,
    {
        let ghost before = out@;
        let present = contains_id(known, &events[i]);
        proof {
            let sub = ids_view(events@).subrange(0, i + 1);
            assert(sub.drop_last() =~= ids_view(events@).subrange(0, i as int));
            assert(sub.last() == events@[i as int]@);
        }
        if !present {
            out.push(i);
            proof {
                assert(positions_view(out@) =~= positions_view(before).push(i as int));
            }
        }
        i = i + 1;
    }
    proof {
        assert(ids_view(events@).subrange(0, n as int) =~= ids_view(events@));
    }
    out
}

/// How many events of all the legacy stores `known` lacks.
pub open spec fn total_missing(known: Seq<Seq<u8>>, sleds: Seq<Seq<Seq<u8>>>) -> nat
    decreases sleds.len(),
{
    if sleds.len() == 0 {
        0
    } else {
        total_missing(known, sleds.drop_last()) + missing_positions(known, sleds.last()).len()
    }
}

/// What the repair of legacy stores does: which events of each store go
/// into the shared store, which stores are removed afterwards, and how
/// many events are merged in all.
pub struct LegacyFixPlan {
    pub inserts: Vec<Vec<usize>>,
    pub clean: Vec<bool>,
    pub merged: u64,
}

/// Plan the merge of the legacy stores that could be opened into the shared
/// store whose ids are `known`. A store is removed once all its events are
/// in the shared store or once any event has been merged; `None` when the
/// merged count does not fit in 64 bits.
pub fn plan_legacy_fix(known: &Vec<Vec<u8>>, sleds: &Vec<Vec<Vec<u8>>>) -> (r: Option<LegacyFixPlan>)
    ensures
        r matches Some(p) ==> {
            &&& p.merged == total_missing(ids_view(known@), sleds_view(sleds@))
            &&& p.inserts@.len() == sleds@.len()
            &&& p.clean@.len() == sleds@.len()
            &&& forall|k: int|
                0 <= k < sleds@.len() ==> positions_view(#[trigger] p.inserts@[k]@)
                    == missing_positions(ids_view(known@), ids_view(sleds@[k]@))
            &&& forall|k: int| 0 <= k < sleds@.len() ==> #[trigger] p.clean@[k]
        },
        r is None ==> total_missing(ids_view(known@), sleds_view(sleds@)) > u64::MAX,
{
    let n = sleds.len();
    let mut inserts: Vec<Vec<usize>> = Vec::new();
    let mut clean: Vec<bool> = Vec::new();
    let mut merged: u64 = 0;
    let mut k: usize = 0;
    while k < n
        invariant
            n == sleds@.len(),
            k <= n,
            inserts@.len() == k,
            clean@.len() == k,
            merged == total_missing(ids_view(known@), sleds_view(sleds@).subrange(0, k as int)),
            forall|j: int|
                0 <= j < k ==> positions_view(#[trigger] inserts@[j]@)
                    == missing_positions(ids_view(known@), ids_view(sleds@[j]@)),
            forall|j: int| 0 <= j < k ==> #[trigger] clean@[j],
        decreases n - k,
    {
        let missing = unmerged_indices(known, &sleds[k]);
        let all_merged = missing.len() == 0;
        proof {
            let sub = sleds_view(sleds@).subrange(0, k + 1);
            assert(sub.drop_last() =~= sleds_view(sleds@).subrange(0, k as int));
            assert(sub.last() == ids_view(sleds@[k as int]@));
            assert(positions_view(missing@).len() == missing@.len());
        }
        let count = missing.len() as u64;
        if merged > u64::MAX - count {
            proof {
                lemma_total_missing_prefix_monotone(
                    ids_view(known@),
                    sleds_view(sleds@),
                    k + 1,
                );
                assert(sleds_view(sleds@).subrange(0, n as int) =~= sleds_view(sleds@));
            }
            return None;
        }
        merged = merged + count;
        inserts.push(missing);
        clean.push(all_merged || merged > 0);
        k = k + 1;
    }
    proof {
        assert(sleds_view(sleds@).subrange(0, n as int) =~= sleds_view(sleds@));
    }
    Some(LegacyFixPlan { inserts, clean, merged })
}

/// The missing count over a prefix of the stores never exceeds the count over all of them.
proof fn lemma_total_missing_prefix_monotone(known: Seq<Seq<u8>>, sleds: Seq<Seq<Seq<u8>>>, k: int)
    requires
        0 <= k <= sleds.len(),
    ensures
        total_missing(known, sleds.subrange(0, k)) <= total_missing(known, sleds),
    decreases sleds.len() - k,
{
    if k < sleds.len() {
        lemma_total_missing_prefix_monotone(known, sleds, k + 1);
        let sub = sleds.subrange(0, k + 1);
        assert(sub.drop_last() =~= sleds.subrange(0, k));
    } else {
        assert(sleds.subrange(0, k) =~= sleds);
    }
}

/// How many events of the legacy stores that could be opened the shared
/// store lacks; `None` when the count does not fit in 64 bits.
pub fn count_unmerged(known: &Vec<Vec<u8>>, sleds: &Vec<Vec<Vec<u8>>>) -> (r: Option<u64>)
    ensures
        r matches Some(c) ==> c == total_missing(ids_view(known@), sleds_view(sleds@)),
        r is None ==> total_missing(ids_view(known@), sleds_view(sleds@)) > u64::MAX,
{
    match plan_legacy_fix(known, sleds) {
        Some(p) => Some(p.merged),
        None => None,
    }
}

/// What probing for legacy per-actor stores found, in the order the probes run.
pub enum LegacyProbe {
    /// No git directory was found.
    NoGitDir,
    /// The repository context did not resolve.
    NoContext,
    /// The actors could not be listed; the text is the error.
    ListFailed(String),
    /// No actor has a store of its own.
    NoLegacy,
    /// `legacy` actors have stores of their own, but a daemon holds the shared store.
    HeldByDaemon { legacy: u64 },
    /// The shared store could not be opened.
    SharedStoreFailed,
    /// `accessible` legacy stores could be opened, and they hold `unmerged`
    /// events the shared store lacks.
    Scanned { accessible: u64, unmerged: u64 },
}

/// The legacy store check, and whether a repair would merge or clean up.
pub fn check_legacy_actor_sleds(probe: &LegacyProbe) -> (r: (CheckResult, bool))
    ensures
        *probe is NoGitDir ==> check_is(
            r.0,
            "legacy_actor_sleds"@,
            "warn"@,
            "Cannot check - no git context"@,
            Seq::empty(),
        ) && !r.1,
        *probe is NoContext ==> check_is(
            r.0,
            "legacy_actor_sleds"@,
            "warn"@,
            "Cannot check - no actor configured"@,
            plan1("Run 'grite init'"@),
        ) && !r.1,
        *probe matches LegacyProbe::ListFailed(e) ==> check_is(
            r.0,
            "legacy_actor_sleds"@,
            "warn"@,
            "Cannot list actors: "@ + e@,
            Seq::empty(),
        ) && !r.1,
        *probe is NoLegacy ==> check_is(
            r.0,
            "legacy_actor_sleds"@,
            "ok"@,
            "No legacy per-actor sleds"@,
            Seq::empty(),
        ) && !r.1,
        *probe matches LegacyProbe::HeldByDaemon { legacy } ==> check_is(
            r.0,
            "legacy_actor_sleds"@,
            "warn"@,
            decimal_chars(legacy as nat)
                + " legacy actor sled(s) found (store held by daemon - cannot count unmerged events)"@,
            plan1("Stop the daemon and re-run 'grite doctor' to check for unmerged events"@),
        ) && !r.1,
        *probe is SharedStoreFailed ==> check_is(
            r.0,
            "legacy_actor_sleds"@,
            "warn"@,
            "Cannot open shared store to check for unmerged events"@,
            plan1("Fix store_integrity first"@),
        ) && !r.1,
        *probe matches LegacyProbe::Scanned { accessible, unmerged } ==> (if accessible == 0 {
            check_is(
                r.0,
                "legacy_actor_sleds"@,
                "ok"@,
                "No accessible legacy actor sleds"@,
                Seq::empty(),
            ) && !r.1
        } else if unmerged == 0 {
            check_is(
                r.0,
                "legacy_actor_sleds"@,
                "warn"@,
                decimal_chars(accessible as nat) + " legacy actor sled(s), all events already in shared store"@,
                plan1("Run 'grite doctor --fix' to clean up legacy sleds"@),
            ) && r.1
        } else {
            check_is(
                r.0,
                "legacy_actor_sleds"@,
                "warn"@,
                decimal_chars(accessible as nat) + " legacy actor sled(s) with "@ + decimal_chars(
                    unmerged as nat,
                ) + " unmerged event(s)"@,
                plan1("Run 'grite doctor --fix' to merge legacy events into the shared store"@),
            ) && r.1
        }),
{
    let id = "legacy_actor_sleds";
    match probe {
        LegacyProbe::NoGitDir => {
            let plan: Vec<&str> = Vec::new();
            proof {
                assert(strs_view(plan@) =~= Seq::<Seq<char>>::empty());
            }
            (CheckResult::warn(id, "Cannot check - no git context", plan), false)
        },
        LegacyProbe::NoContext => {
            let plan = vec!["Run 'grite init'"];
            proof {
                assert(strs_view(plan@) =~= plan1("Run 'grite init'"@));
            }
            (CheckResult::warn(id, "Cannot check - no actor configured", plan), false)
        },
        LegacyProbe::ListFailed(e) => {
            let mut m = String::from_str("Cannot list actors: ");
            m.append(e.as_str());
            let plan: Vec<&str> = Vec::new();
            proof {
                assert(strs_view(plan@) =~= Seq::<Seq<char>>::empty());
            }
            (CheckResult::warn(id, m.as_str(), plan), false)
        },
        LegacyProbe::NoLegacy => (CheckResult::ok(id, "No legacy per-actor sleds"), false),
        LegacyProbe::HeldByDaemon { legacy } => {
            let mut m = decimal_string(*legacy);
            m.append(" legacy actor sled(s) found (store held by daemon - cannot count unmerged events)");
            let plan = vec!["Stop the daemon and re-run 'grite doctor' to check for unmerged events"];
            proof {
                assert(strs_view(plan@) =~= plan1(
                    "Stop the daemon and re-run 'grite doctor' to check for unmerged events"@,
                ));
            }
            (CheckResult::warn(id, m.as_str(), plan), false)
        },
        LegacyProbe::SharedStoreFailed => {
            let plan = vec!["Fix store_integrity first"];
            proof {
                assert(strs_view(plan@) =~= plan1("Fix store_integrity first"@));
            }
            (CheckResult::warn(id, "Cannot open shared store to check for unmerged events", plan), false)
        },
        LegacyProbe::Scanned { accessible, unmerged } => {
            if *accessible == 0 {
                (CheckResult::ok(id, "No accessible legacy actor sleds"), false)
            } else if *unmerged == 0 {
                let mut m = decimal_string(*accessible);
                m.append(" legacy actor sled(s), all events already in shared store");
                let plan = vec!["Run 'grite doctor --fix' to clean up legacy sleds"];
                proof {
                    assert(strs_view(plan@) =~= plan1(
                        "Run 'grite doctor --fix' to clean up legacy sleds"@,
                    ));
                }
                (CheckResult::warn(id, m.as_str(), plan), true)
            } else {
                let mut m = decimal_string(*accessible);
                m.append(" legacy actor sled(s) with ");
                m.append(decimal_string(*unmerged).as_str());
                m.append(" unmerged event(s)");
                let plan = vec!["Run 'grite doctor --fix' to merge legacy events into the shared store"];
                proof {
                    assert(strs_view(plan@) =~= plan1(
                        "Run 'grite doctor --fix' to merge legacy events into the shared store"@,
                    ));
                }
                (CheckResult::warn(id, m.as_str(), plan), true)
            }
        },
    }
}

/// A legacy store directory is removed only when its canonical path lies
/// under the repository's actor directories.
pub fn removable_legacy_path(canonical: &str) -> (r: bool)
    ensures
        r == contains_chars(canonical@, "/.git/grite/actors/"@),
{
    contains_str(canonical, "/.git/grite/actors/")
}

/// The check's new message after a repair merged `merged` events and removed
/// `cleaned` stores; `None` when the repair did neither.
pub open spec fn spec_legacy_fixed_message(merged: u64, cleaned: u64) -> Option<Seq<char>> {
    if merged > 0 && cleaned > 0 {
        Some(
            "merged "@ + decimal_chars(merged as nat) + " event(s), cleaned "@ + decimal_chars(
                cleaned as nat,
            ) + " legacy sled(s)"@,
        )
    } else if merged > 0 {
        Some("merged "@ + decimal_chars(merged as nat) + " legacy event(s) into shared store"@)
    } else if cleaned > 0 {
        Some("cleaned "@ + decimal_chars(cleaned as nat) + " legacy sled(s)"@)
    } else {
        None
    }
}

/// The entries a legacy repair adds to the list of applied fixes.
pub open spec fn spec_legacy_applied(merged: u64, cleaned: u64) -> Seq<Seq<char>> {
    (if merged > 0 {
        seq!["merged "@ + decimal_chars(merged as nat) + " legacy event(s)"@]
    } else {
        Seq::empty()
    }) + (if cleaned > 0 {
        seq!["cleaned "@ + decimal_chars(cleaned as nat) + " legacy sled(s)"@]
    } else {
        Seq::empty()
    })
}

/// A legacy repair reports itself exactly when it merged or cleaned
/// something, and adds one applied fix for each of the two it did.
pub proof fn lemma_legacy_repair_reported(merged: u64, cleaned: u64)
    ensures
        spec_legacy_fixed_message(merged, cleaned) is None <==> (merged == 0 && cleaned == 0),
        spec_legacy_applied(merged, cleaned).len() == (if merged > 0 {
            1int
        } else {
            0int
        }) + (if cleaned > 0 {
            1int
        } else {
            0int
        }),
{
}

/// Whether the check in `checks` at `k` is the first with id `id`.
pub open spec fn first_with_id(checks: Seq<CheckResult>, id: Seq<char>, k: int) -> bool {
    &&& 0 <= k < checks.len()
    &&& checks[k].id@ == id
    &&& forall|j: int| 0 <= j < k ==> #[trigger] checks[j].id@ != id
}

/// Record a legacy repair: the applied fixes gain an entry for the merged
/// events and one for the removed stores, and the first legacy check is
/// replaced by a passing one that says what was done. A repair that did
/// neither changes nothing.
pub fn record_legacy_fix(checks: &mut Vec<CheckResult>, applied: &mut Vec<String>, merged: u64, cleaned: u64)
    ensures
        strings_view(*final(applied)) == strings_view(*old(applied)) + spec_legacy_applied(merged, cleaned),
        final(checks)@.len() == old(checks)@.len(),
        spec_legacy_fixed_message(merged, cleaned) is None ==> final(checks)@ == old(checks)@,
        spec_legacy_fixed_message(merged, cleaned) matches Some(msg) ==> (if exists|k: int|
            first_with_id(old(checks)@, "legacy_actor_sleds"@, k) {
            exists|k: int|
                first_with_id(old(checks)@, "legacy_actor_sleds"@, k) && check_is(
                    #[trigger] final(checks)@[k],
                    "legacy_actor_sleds"@,
                    "ok"@,
                    msg,
                    Seq::empty(),
                ) && forall|j: int| 0 <= j < old(checks)@.len() && j != k ==> final(checks)@[j]
                    == old(checks)@[j]
        } else {
            final(checks)@ == old(checks)@
        }),
{
    if merged == 0 && cleaned == 0 {
        proof {
            assert(strings_view(*applied) =~= strings_view(*applied) + spec_legacy_applied(merged, cleaned));
        }
        return;
    }
    let ghost applied0 = strings_view(*applied);
    assert(applied0 == strings_view(*old(applied)));
    if merged > 0 {
        let mut e = String::from_str("merged ");
        e.append(decimal_string(merged).as_str());
        e.append(" legacy event(s)");
        applied.push(e);
    }
    if cleaned > 0 {
        let mut e = String::from_str("cleaned ");
        e.append(decimal_string(cleaned).as_str());
        e.append(" legacy sled(s)");
        applied.push(e);
    }
    proof {
        assert(strings_view(*applied) =~= applied0 + spec_legacy_applied(merged, cleaned));
    }
    let msg = if merged > 0 && cleaned > 0 {
        let mut m = String::from_str("merged ");
        m.append(decimal_string(merged).as_str());
        m.append(" event(s), cleaned ");
        m.append(decimal_string(cleaned).as_str());
        m.append(" legacy sled(s)");
        m
    } else if merged > 0 {
        let mut m = String::from_str("merged ");
        m.append(decimal_string(merged).as_str());
        m.append(" legacy event(s) into shared store");
        m
    } else {
        let mut m = String::from_str("cleaned ");
        m.append(decimal_string(cleaned).as_str());
        m.append(" legacy sled(s)");
        m
    };
    let n = checks.len();
    let mut k: usize = 0;
    while k < n
        invariant
            n == checks@.len(),
            k <= n,
            checks@ == old(checks)@,
            strings_view(*applied) == strings_view(*old(applied)) + spec_legacy_applied(merged, cleaned),
            merged > 0 || cleaned > 0,
            spec_legacy_fixed_message(merged, cleaned) == Some(msg@),
            forall|j: int| 0 <= j < k ==> #[trigger] checks@[j].id@ != "legacy_actor_sleds"@,
        decreases n - k,
    {
        if same_text(checks[k].id.as_str(), "legacy_actor_sleds") {
            let replacement = CheckResult::ok("legacy_actor_sleds", msg.as_str());
            checks.set(k, replacement);
            proof {
                assert(first_with_id(old(checks)@, "legacy_actor_sleds"@, k as int));
                assert(check_is(checks@[k as int], "legacy_actor_sleds"@, "ok"@, msg@, Seq::empty()));
                assert(forall|j: int|
                    0 <= j < old(checks)@.len() && j != k ==> checks@[j] == old(checks)@[j]);
            }
            return;
        }
        k = k + 1;
    }
    proof {
        assert forall|q: int| !first_with_id(old(checks)@, "legacy_actor_sleds"@, q) by {
            if first_with_id(old(checks)@, "legacy_actor_sleds"@, q) {
                assert(checks@[q].id@ != "legacy_actor_sleds"@);
            }
        }
    }
}

/// The repairs a doctor run performs, decided before the checks run and
/// after them.
#[derive(Debug, Clone, Copy, PartialEq, Eq, Structural)]
pub struct RepairPlan {
    /// Stop the daemon before the checks and start it again afterwards.
    pub pause_daemon: bool,
    /// Rebuild the store.
    pub rebuild: bool,
    /// Merge the legacy per-actor stores.
    pub merge_legacy: bool,
}

/// With `--fix`, a running daemon is stopped for the repairs and restarted
/// after them; the store is rebuilt only when its check asked for a
/// rebuild, and legacy stores are merged only when their check found any.
/// Without `--fix` nothing is touched.
pub fn repair_plan(fix: bool, daemon_running: bool, needs_rebuild: bool, needs_merge: bool) -> (r: RepairPlan)
    ensures
        r.pause_daemon == (fix && daemon_running),
        r.rebuild == (fix && needs_rebuild),
        r.merge_legacy == (fix && needs_merge),
{
    RepairPlan {
        pause_daemon: fix && daemon_running,
        rebuild: fix && needs_rebuild,
        merge_legacy: fix && needs_merge,
    }
}

/// Whether any check failed.
pub open spec fn any_error(checks: Seq<CheckResult>) -> bool {
    exists|k: int| 0 <= k < checks.len() && #[trigger] checks[k].status@ == "error"@
}

/// The doctor's outcome: an error when some health probe reported an error and no repair was applied.
pub fn doctor_verdict(checks: &Vec<CheckResult>, applied: &Vec<String>) -> (r: Result<(), String>)
    ensures
        r is Err <==> (any_error(checks@) && applied@.len() == 0),
        r matches Err(m) ==> m@ == "Health checks failed"@,
{
    let n = checks.len();
    let mut has_errors = false;
    let mut k: usize = 0;
    while k < n
        invariant
            n == checks@.len(),
            k <= n,
            has_errors == exists|j: int| 0 <= j < k && #[trigger] checks@[j].status@ == "error"@,
        decreases n - k,
    {
        if same_text(checks[k].status.as_str(), "error") {
            has_errors = true;
        }
        k = k + 1;
    }
    if has_errors && applied.len() == 0 {
        Err(String::from_str("Health checks failed"))
    } else {
        Ok(())
    }
}

/// The marker printed before a check in human-readable output.
pub open spec fn spec_status_icon(status: Seq<char>) -> Seq<char> {
    if status == "ok"@ {
        "[ok]"@
    } else if status == "warn"@ {
        "[!!]"@
    } else if status == "error"@ {
        "[ERR]"@
    } else {
        "[?]"@
    }
}

/// Each known status has its own marker, and any other status is shown as
/// unknown.
pub proof fn lemma_status_icons(status: Seq<char>)
    ensures
        spec_status_icon(status) == "[ok]"@ <==> status == "ok"@,
        spec_status_icon(status) == "[!!]"@ <==> status == "warn"@,
        spec_status_icon(status) == "[ERR]"@ <==> status == "error"@,
        spec_status_icon(status) == "[?]"@ <==> !(status == "ok"@ || status == "warn"@ || status
            == "error"@),
{
    reveal_strlit("[ok]");
    reveal_strlit("[!!]");
    reveal_strlit("[ERR]");
    reveal_strlit("[?]");
    assert("[ok]"@.len() == 4 && "[ok]"@[1] == 'o');
    assert("[!!]"@.len() == 4 && "[!!]"@[1] == '!');
    assert("[ERR]"@.len() == 5 && "[ERR]"@[1] == 'E');
    assert("[?]"@.len() == 3 && "[?]"@[1] == '?');
    reveal_strlit("ok");
    reveal_strlit("warn");
    reveal_strlit("error");
    assert("ok"@.len() == 2 && "ok"@[0] == 'o');
    assert("warn"@.len() == 4 && "warn"@[0] == 'w');
    assert("error"@.len() == 5 && "error"@[0] == 'e');
}

/// The marker for a check's status.
pub fn status_icon(status: &str) -> (r: &'static str)
    ensures
        r@ == spec_status_icon(status@),
{
    if same_text(status, "ok") {
        "[ok]"
    } else if same_text(status, "warn") {
        "[!!]"
    } else if same_text(status, "error") {
        "[ERR]"
    } else {
        "[?]"
    }
}

} // verus!
