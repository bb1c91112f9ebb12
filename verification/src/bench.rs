//! Benchmark scenarios and the decisions a simulated agent makes.

use vstd::prelude::*;
use vstd::string::*;
use vstd::arithmetic::power2::pow2;
use rand::Rng;
use crate::codec::{hex_encode, hex_lower};
use crate::metrics::OpType;
use crate::text::{contains_chars, contains_str, decimal_chars, decimal_string};

verus! {

/// How often each kind of operation is chosen, in thousandths.
#[derive(Debug, Clone, Copy, PartialEq, Eq, Structural)]
pub struct OperationMix {
    pub create_issue: u32,
    pub add_comment: u32,
    pub add_label: u32,
    pub remove_label: u32,
    pub update_issue: u32,
    pub close_issue: u32,
}

/// The default mix: mostly creating issues and commenting.
pub open spec fn default_mix() -> OperationMix {
    OperationMix {
        create_issue: 400,
        add_comment: 300,
        add_label: 100,
        remove_label: 50,
        update_issue: 50,
        close_issue: 100,
    }
}

impl Default for OperationMix {
    fn default() -> (m: Self)
        ensures
            m == default_mix(),
    {
        OperationMix {
            create_issue: 400,
            add_comment: 300,
            add_label: 100,
            remove_label: 50,
            update_issue: 50,
            close_issue: 100,
        }
    }
}

/// The operation for the draw `r` (in thousandths): the first kind whose
/// running total of weights exceeds `r`, and closing an issue when none does.
pub open spec fn spec_select(m: OperationMix, r: int) -> OpType {
    let c1 = m.create_issue as int;
    let c2 = c1 + m.add_comment;
    let c3 = c2 + m.add_label;
    let c4 = c3 + m.remove_label;
    let c5 = c4 + m.update_issue;
    if r < c1 {
        OpType::CreateIssue
    } else if r < c2 {
        OpType::AddComment
    } else if r < c3 {
        OpType::AddLabel
    } else if r < c4 {
        OpType::RemoveLabel
    } else if r < c5 {
        OpType::UpdateIssue
    } else {
        OpType::CloseIssue
    }
}

/// The sum of a mix's weights.
pub open spec fn total_weight(m: OperationMix) -> int {
    m.create_issue + m.add_comment + m.add_label + m.remove_label + m.update_issue + m.close_issue
}

/// Every kind of operation that has a positive weight in a mix of at most a
/// thousand thousandths is chosen by some draw below a thousand: exactly the
/// draws from the running total before it up to its own running total.
pub proof fn lemma_weighted_kinds_have_draws(m: OperationMix, r: int)
    requires
        total_weight(m) <= 1000,
        0 <= r < 1000,
    ensures
        m.create_issue > 0 ==> spec_select(m, 0) == OpType::CreateIssue,
        m.add_comment > 0 ==> spec_select(m, m.create_issue as int) == OpType::AddComment,
        m.add_label > 0 ==> spec_select(m, m.create_issue + m.add_comment) == OpType::AddLabel,
        m.remove_label > 0 ==> spec_select(m, m.create_issue + m.add_comment + m.add_label)
            == OpType::RemoveLabel,
        m.update_issue > 0 ==> spec_select(
            m,
            m.create_issue + m.add_comment + m.add_label + m.remove_label,
        ) == OpType::UpdateIssue,
        m.close_issue > 0 ==> spec_select(
            m,
            m.create_issue + m.add_comment + m.add_label + m.remove_label + m.update_issue,
        ) == OpType::CloseIssue,
        spec_select(m, r) == OpType::CreateIssue <==> r < m.create_issue,
        spec_select(m, r) == OpType::CloseIssue <==> r >= total_weight(m) - m.close_issue,
{
}

impl OperationMix {
    /// The operation for the draw `r`.
    pub fn select_at(&self, r: u32) -> (op: OpType)
        ensures
            op == spec_select(*self, r as int),
    {
        let r = r as u64;
        let mut cumulative: u64 = self.create_issue as u64;
        if r < cumulative {
            return OpType::CreateIssue;
        }
        cumulative = cumulative + self.add_comment as u64;
        if r < cumulative {
            return OpType::AddComment;
        }
        cumulative = cumulative + self.add_label as u64;
        if r < cumulative {
            return OpType::AddLabel;
        }
        cumulative = cumulative + self.remove_label as u64;
        if r < cumulative {
            return OpType::RemoveLabel;
        }
        cumulative = cumulative + self.update_issue as u64;
        if r < cumulative {
            return OpType::UpdateIssue;
        }
        OpType::CloseIssue
    }

    /// Select an operation type at random according to the weights: a draw
    /// below one thousand picks the operation.
    pub fn select(&self) -> (op: OpType)
        ensures
            exists|r: int| 0 <= r < 1000 && op == spec_select(*self, r),
    {
        let r = random_index(1000);
        self.select_at(r as u32)
    }
}

/// Benchmark scenario: how many agents run, how many operations each, and
/// how long they think between operations.
#[derive(Debug)]
pub struct BenchmarkScenario {
    pub name: String,
    pub description: String,
    pub agent_count: usize,
    pub operations_per_agent: usize,
    pub operation_mix: OperationMix,
    /// Min/max think time in milliseconds between operations
    pub think_time_ms: (u64, u64),
    /// Whether to use batched WAL appends
    pub batch_size: usize,
}

impl Clone for BenchmarkScenario {
    fn clone(&self) -> (s: Self)
        ensures
            s == *self,
    {
        BenchmarkScenario {
            name: self.name.clone(),
            description: self.description.clone(),
            agent_count: self.agent_count,
            operations_per_agent: self.operations_per_agent,
            operation_mix: self.operation_mix,
            think_time_ms: self.think_time_ms,
            batch_size: self.batch_size,
        }
    }
}

/// What `str::to_lowercase` gives for `s` (full Unicode lowercasing).
pub uninterp spec fn lowercase_of(s: Seq<char>) -> Seq<char>;

/// `str::to_lowercase`.
#[verifier::external_body]
fn to_lowercase(s: &str) -> (r: String)
    ensures
        r@ == lowercase_of(s@),
{
    s.to_lowercase()
}

/// The scenario shapes the benchmark knows.
#[derive(Debug, Clone, Copy, PartialEq, Eq, Structural)]
pub enum ScenarioKind {
    Burst,
    Sustained,
    Ramp,
}

/// The scenario a (lowercased) name selects.
pub open spec fn scenario_kind_named(lower: Seq<char>) -> Option<ScenarioKind> {
    if lower == "burst"@ {
        Some(ScenarioKind::Burst)
    } else if lower == "sustained"@ {
        Some(ScenarioKind::Sustained)
    } else if lower == "ramp"@ {
        Some(ScenarioKind::Ramp)
    } else {
        None
    }
}

/// The shape of `s`: its name, description, think time and batch size.
pub open spec fn has_shape(s: BenchmarkScenario, kind: ScenarioKind) -> bool {
    s.operation_mix == default_mix() && match kind {
        ScenarioKind::Burst => s.name@ == "Burst"@ && s.description@
            == "All agents start simultaneously, maximum contention"@ && s.think_time_ms == (
            0u64,
            0u64,
        ) && s.batch_size == 1,
        ScenarioKind::Sustained => s.name@ == "Sustained"@ && s.description@
            == "Steady operations with realistic delays"@ && s.think_time_ms == (10u64, 100u64)
            && s.batch_size == 1,
        ScenarioKind::Ramp => s.name@ == "Ramp"@ && s.description@ == "Gradually increase load"@
            && s.think_time_ms == (5u64, 50u64) && s.batch_size == 1,
    }
}

impl BenchmarkScenario {
    /// Burst: All agents start simultaneously, maximum contention
    pub fn burst(agents: usize, ops_per_agent: usize) -> (s: Self)
        ensures
            has_shape(s, ScenarioKind::Burst),
            s.agent_count == agents,
            s.operations_per_agent == ops_per_agent,
    {
        BenchmarkScenario {
            name: String::from_str("Burst"),
            description: String::from_str("All agents start simultaneously, maximum contention"),
            agent_count: agents,
            operations_per_agent: ops_per_agent,
            operation_mix: OperationMix::default(),
            think_time_ms: (0, 0),
            batch_size: 1,
        }
    }

    /// Sustained: Steady operations with realistic delays
    pub fn sustained(agents: usize, ops_per_agent: usize) -> (s: Self)
        ensures
            has_shape(s, ScenarioKind::Sustained),
            s.agent_count == agents,
            s.operations_per_agent == ops_per_agent,
    {
        BenchmarkScenario {
            name: String::from_str("Sustained"),
            description: String::from_str("Steady operations with realistic delays"),
            agent_count: agents,
            operations_per_agent: ops_per_agent,
            operation_mix: OperationMix::default(),
            think_time_ms: (10, 100),
            batch_size: 1,
        }
    }

    /// Ramp: Gradually increase agent count (simulated via staggered start)
    pub fn ramp(agents: usize, ops_per_agent: usize) -> (s: Self)
        ensures
            has_shape(s, ScenarioKind::Ramp),
            s.agent_count == agents,
            s.operations_per_agent == ops_per_agent,
    {
        BenchmarkScenario {
            name: String::from_str("Ramp"),
            description: String::from_str("Gradually increase load"),
            agent_count: agents,
            operations_per_agent: ops_per_agent,
            operation_mix: OperationMix::default(),
            think_time_ms: (5, 50),
            batch_size: 1,
        }
    }

    /// Total expected operations
    pub fn total_operations(&self) -> (n: usize)
        requires
            self.agent_count * self.operations_per_agent <= usize::MAX,
        ensures
            n == self.agent_count * self.operations_per_agent,
    {
        self.agent_count * self.operations_per_agent
    }

    /// Parse a scenario from its name, ignoring case.
    pub fn from_name(name: &str, agents: usize, ops: usize) -> (r: Option<Self>)
        ensures
            r is Some <==> scenario_kind_named(lowercase_of(name@)) is Some,
            r matches Some(s) ==> has_shape(s, scenario_kind_named(lowercase_of(name@))->0)
                && s.agent_count == agents && s.operations_per_agent == ops,
    {
        let lower = to_lowercase(name);
        if lower == String::from_str("burst") {
            Some(Self::burst(agents, ops))
        } else if lower == String::from_str("sustained") {
            Some(Self::sustained(agents, ops))
        } else if lower == String::from_str("ramp") {
            Some(Self::ramp(agents, ops))
        } else {
            None
        }
    }
}

impl Default for BenchmarkScenario {
    fn default() -> (s: Self)
        ensures
            has_shape(s, ScenarioKind::Burst),
            s.agent_count == 8,
            s.operations_per_agent == 100,
    {
        Self::burst(8, 100)
    }
}

/// How many times an operation that hit contention is retried.
pub const MAX_RETRIES: u32 = 5;

/// How an agent's operation ended.
#[derive(Debug, Clone, Copy, PartialEq, Eq, Structural)]
pub enum OperationOutcome {
    Succeeded,
    Failed { contention: bool, no_known_issues: bool },
}

/// An agent's progress through its operations.
#[derive(Debug, Clone, Copy, PartialEq, Eq, Structural)]
pub struct AgentProgress {
    pub completed: usize,
    pub retries: u32,
}

/// What the agent does after an operation.
#[derive(Debug, Clone, Copy, PartialEq, Eq, Structural)]
pub enum AgentStep {
    /// Wait `delay_ms` and retry, skipping the think time.
    Backoff { delay_ms: u64 },
    /// Go on to the next operation after the think time; `gave_up` when the
    /// retries ran out on this operation.
    Proceed { gave_up: bool },
}

/// The agent's progress and step after an operation with `outcome`.
pub open spec fn spec_after_operation(p: AgentProgress, outcome: OperationOutcome) -> (
    AgentProgress,
    AgentStep,
) {
    match outcome {
        OperationOutcome::Succeeded => (
            AgentProgress { completed: (p.completed + 1) as usize, retries: 0 },
            AgentStep::Proceed { gave_up: false },
        ),
        OperationOutcome::Failed { contention, no_known_issues } => {
            if contention && p.retries < MAX_RETRIES {
                (
                    AgentProgress { completed: p.completed, retries: (p.retries + 1) as u32 },
                    AgentStep::Backoff { delay_ms: (10 * pow2((p.retries + 1) as nat)) as u64 },
                )
            } else {
                (
                    AgentProgress {
                        completed: if no_known_issues {
                            (p.completed + 1) as usize
                        } else {
                            p.completed
                        },
                        retries: 0,
                    },
                    AgentStep::Proceed { gave_up: p.retries >= MAX_RETRIES },
                )
            }
        },
    }
}

fn pow2_u64(e: u32) -> (r: u64)
    requires
        e <= 6,
    ensures
        r == pow2(e as nat),
        r <= 64,
{
    proof {
        vstd::arithmetic::power2::lemma2_to64();
    }
    if e == 0 {
        1
    } else if e == 1 {
        2
    } else if e == 2 {
        4
    } else if e == 3 {
        8
    } else if e == 4 {
        16
    } else if e == 5 {
        32
    } else {
        64
    }
}

/// Retry with exponential backoff on contention: the delay is 10ms times
/// 2 to the retry count; the operation that succeeds, or that fails for
/// another reason, or whose retries have run out, ends the retries. A failure
/// for want of a known issue still counts as a completed operation.
pub fn after_operation(p: AgentProgress, outcome: OperationOutcome) -> (r: (AgentProgress, AgentStep))
    requires
        p.completed < usize::MAX,
        p.retries <= MAX_RETRIES,
    ensures
        r == spec_after_operation(p, outcome),
{
    match outcome {
        OperationOutcome::Succeeded => (
            AgentProgress { completed: p.completed + 1, retries: 0 },
            AgentStep::Proceed { gave_up: false },
        ),
        OperationOutcome::Failed { contention, no_known_issues } => {
            if contention && p.retries < MAX_RETRIES {
                let retries = p.retries + 1;
                let delay_ms = 10 * pow2_u64(retries);
                (AgentProgress { completed: p.completed, retries }, AgentStep::Backoff { delay_ms })
            } else {
                let completed = if no_known_issues {
                    p.completed + 1
                } else {
                    p.completed
                };
                (
                    AgentProgress { completed, retries: 0 },
                    AgentStep::Proceed { gave_up: p.retries >= MAX_RETRIES },
                )
            }
        },
    }
}

/// A success completes the operation and clears the retries; a contended
/// failure with retries left waits 10ms times two to the next retry count
/// and completes nothing; any other failure clears the retries and completes
/// the operation only when there was no issue to work on.
pub proof fn lemma_outcome_effects(p: AgentProgress, contention: bool, no_known_issues: bool)
    requires
        p.completed < usize::MAX,
        p.retries <= MAX_RETRIES,
    ensures
        spec_after_operation(p, OperationOutcome::Succeeded) == (
            AgentProgress { completed: (p.completed + 1) as usize, retries: 0 },
            AgentStep::Proceed { gave_up: false },
        ),
        contention && p.retries < MAX_RETRIES ==> spec_after_operation(
            p,
            OperationOutcome::Failed { contention, no_known_issues },
        ) == (
            AgentProgress { completed: p.completed, retries: (p.retries + 1) as u32 },
            AgentStep::Backoff { delay_ms: (10 * pow2((p.retries + 1) as nat)) as u64 },
        ),
        !(contention && p.retries < MAX_RETRIES) ==> spec_after_operation(
            p,
            OperationOutcome::Failed { contention, no_known_issues },
        ).0 == (AgentProgress {
            completed: if no_known_issues {
                (p.completed + 1) as usize
            } else {
                p.completed
            },
            retries: 0,
        }),
{
}

/// Retries never exceed the limit, each operation completes at most one
/// step of work, and no backoff is longer than 320ms.
pub proof fn lemma_agent_progress_bounded(p: AgentProgress, outcome: OperationOutcome)
    requires
        p.completed < usize::MAX,
        p.retries <= MAX_RETRIES,
    ensures
        spec_after_operation(p, outcome).0.retries <= MAX_RETRIES,
        p.completed <= spec_after_operation(p, outcome).0.completed <= p.completed + 1,
        spec_after_operation(p, outcome).1 matches AgentStep::Backoff { delay_ms } ==> 20 <= delay_ms
            <= 320,
{
    vstd::arithmetic::power2::lemma2_to64();
}

/// A contended operation is retried exactly `MAX_RETRIES` times before the
/// agent gives up on it.
pub proof fn lemma_gives_up_after_max_retries(completed: usize)
    requires
        completed < usize::MAX,
    ensures
        ({
            let contended = OperationOutcome::Failed { contention: true, no_known_issues: false };
            let p0 = AgentProgress { completed, retries: 0 };
            let p1 = spec_after_operation(p0, contended).0;
            let p2 = spec_after_operation(p1, contended).0;
            let p3 = spec_after_operation(p2, contended).0;
            let p4 = spec_after_operation(p3, contended).0;
            let p5 = spec_after_operation(p4, contended).0;
            &&& p5.retries == MAX_RETRIES
            &&& spec_after_operation(p5, contended).1 == AgentStep::Proceed { gave_up: true }
            &&& spec_after_operation(p5, contended).0 == (AgentProgress { completed, retries: 0 })
        }),
{
    vstd::arithmetic::power2::lemma2_to64();
}

/// A failure as the agent sees it.
pub enum FailureKind {
    /// A git error, with whether its code is `Locked` and its message.
    Git { locked: bool, message: String },
    /// The store was busy.
    DbBusy,
    /// Any other error.
    Other,
}

/// A busy store and a locked git reference are contention, as is a git
/// error that mentions a reference or a conflict; any other failure is not.
pub proof fn lemma_contention_kinds(message: String)
    ensures
        spec_is_contention(FailureKind::DbBusy),
        !spec_is_contention(FailureKind::Other),
        spec_is_contention(FailureKind::Git { locked: true, message }),
        spec_is_contention(FailureKind::Git { locked: false, message }) <==> (contains_chars(
            message@,
            "reference"@,
        ) || contains_chars(message@, "conflict"@)),
{
}

pub open spec fn spec_is_contention(kind: FailureKind) -> bool {
    match kind {
        FailureKind::Git { locked, message } => locked || contains_chars(message@, "reference"@)
            || contains_chars(message@, "conflict"@),
        FailureKind::DbBusy => true,
        FailureKind::Other => false,
    }
}

/// Benchmark errors that the library's own logic raises.
#[derive(Debug)]
pub enum BenchError {
    /// Invalid configuration.
    Config(String),
    /// A benchmark step could not run.
    Bench(String),
}

/// A fresh random 16-byte identifier (`rand::random`).
#[verifier::external_body]
fn random_id16() -> (id: [u8; 16]) {
    rand::random::<[u8; 16]>()
}

/// A uniformly chosen index below `len` (`Rng::gen_range(0..len)`).
#[verifier::external_body]
fn random_index(len: usize) -> (i: usize)
    requires
        len > 0,
    ensures
        i < len,
{
    rand::thread_rng().gen_range(0..len)
}

/// A uniformly chosen value in `lo..=hi` (`Rng::gen_range(lo..=hi)`).
#[verifier::external_body]
fn random_in_range(lo: u64, hi: u64) -> (v: u64)
    requires
        lo <= hi,
    ensures
        lo <= v <= hi,
{
    rand::thread_rng().gen_range(lo..=hi)
}

/// The current UTC time as `%Y-%m-%d %H:%M:%S UTC` (`chrono::Utc::now().format(..)`).
#[verifier::external_body]
fn utc_now_text() -> (s: String) {
    chrono::Utc::now().format("%Y-%m-%d %H:%M:%S UTC").to_string()
}

/// The labels a simulated agent picks from.
pub open spec fn agent_label_pool() -> Seq<Seq<char>> {
    seq![
        "bug"@,
        "feature"@,
        "enhancement"@,
        "documentation"@,
        "performance"@,
        "security"@,
        "testing"@,
        "refactor"@,
    ]
}

/// The issue titles a simulated agent picks from.
pub open spec fn agent_title_pool() -> Seq<Seq<char>> {
    seq![
        "Implement user authentication module"@,
        "Fix null pointer exception in parser"@,
        "Add unit tests for data validation"@,
        "Refactor database connection pool"@,
        "Update API error handling"@,
        "Optimize query performance"@,
        "Add logging to payment service"@,
        "Fix race condition in cache"@,
        "Implement rate limiting"@,
        "Add metrics collection"@,
        "Fix memory leak in worker"@,
        "Update dependency versions"@,
        "Add retry logic to HTTP client"@,
        "Implement circuit breaker pattern"@,
        "Fix timezone handling bug"@,
        "Add input validation"@,
    ]
}

/// The progress comments a simulated agent picks from.
pub open spec fn agent_comment_pool() -> Seq<Seq<char>> {
    seq![
        "Working on this issue."@,
        "Made progress on implementation."@,
        "Encountered an issue, investigating."@,
        "Tests are passing."@,
        "Ready for review."@,
        "Addressed feedback."@,
        "Completed the main functionality."@,
        "Adding documentation."@,
    ]
}

/// `[Agent #<id>] ` in front of `text`.
pub open spec fn agent_tagged(id: usize, text: Seq<char>) -> Seq<char> {
    "[Agent #"@ + decimal_chars(id as nat) + "] "@ + text
}

fn agent_comment(i: usize) -> (s: &'static str)
    requires
        i < 8,
    ensures
        s@ == agent_comment_pool()[i as int],
{
    let comments = [
        "Working on this issue.",
        "Made progress on implementation.",
        "Encountered an issue, investigating.",
        "Tests are passing.",
        "Ready for review.",
        "Addressed feedback.",
        "Completed the main functionality.",
        "Adding documentation.",
    ];
    comments[i]
}

/// A simulated AI coding agent.
pub struct SimulatedAgent {
    /// Agent index (0-based)
    pub id: usize,
    /// Actor ID for this agent
    pub actor_id: [u8; 16],
    /// Actor ID as hex string
    pub actor_id_hex: String,
    /// Scenario configuration
    pub scenario: BenchmarkScenario,
    /// Issues created by this agent
    pub known_issues: Vec<[u8; 16]>,
    /// Labels pool
    pub labels: Vec<String>,
    /// Issue title templates
    pub title_templates: Vec<&'static str>,
}

impl SimulatedAgent {
    pub open spec fn scenario(&self) -> BenchmarkScenario {
        self.scenario
    }

    /// The issues this agent created, oldest first.
    pub open spec fn known_issues(&self) -> Seq<[u8; 16]> {
        self.known_issues@
    }

    pub open spec fn label_pool(&self) -> Seq<Seq<char>> {
        self.labels@.map_values(|l: String| l@)
    }

    pub open spec fn title_pool(&self) -> Seq<Seq<char>> {
        self.title_templates@.map_values(|t: &'static str| t@)
    }

    /// A new agent with a fresh random actor id.
    pub fn new(id: usize, scenario: &BenchmarkScenario) -> (a: Self)
        ensures
            a.id == id,
            a.actor_id_hex@ == hex_lower(a.actor_id@),
            a.scenario() == *scenario,
            a.known_issues() == Seq::<[u8; 16]>::empty(),
            a.label_pool() == agent_label_pool(),
            a.title_pool() == agent_title_pool(),
    {
        let actor_id = random_id16();
        let actor_id_hex = hex_encode(actor_id.as_slice());
        let labels = vec![
            String::from_str("bug"),
            String::from_str("feature"),
            String::from_str("enhancement"),
            String::from_str("documentation"),
            String::from_str("performance"),
            String::from_str("security"),
            String::from_str("testing"),
            String::from_str("refactor"),
        ];
        let title_templates = vec![
            "Implement user authentication module",
            "Fix null pointer exception in parser",
            "Add unit tests for data validation",
            "Refactor database connection pool",
            "Update API error handling",
            "Optimize query performance",
            "Add logging to payment service",
            "Fix race condition in cache",
            "Implement rate limiting",
            "Add metrics collection",
            "Fix memory leak in worker",
            "Update dependency versions",
            "Add retry logic to HTTP client",
            "Implement circuit breaker pattern",
            "Fix timezone handling bug",
            "Add input validation",
        ];
        let a = SimulatedAgent {
            id,
            actor_id,
            actor_id_hex,
            scenario: scenario.clone(),
            known_issues: Vec::new(),
            labels,
            title_templates,
        };
        proof {
            assert(a.label_pool() =~= agent_label_pool());
            assert(a.title_pool() =~= agent_title_pool());
        }
        a
    }

    /// Remember an issue this agent created.
    pub fn record_created_issue(&mut self, issue_id: [u8; 16])
        ensures
            final(self).known_issues() == old(self).known_issues().push(issue_id),
            final(self).id == old(self).id,
            final(self).actor_id == old(self).actor_id,
            final(self).actor_id_hex == old(self).actor_id_hex,
            final(self).scenario() == old(self).scenario(),
            final(self).label_pool() == old(self).label_pool(),
            final(self).title_pool() == old(self).title_pool(),
    {
        self.known_issues.push(issue_id);
    }

    /// Get a random issue from known issues.
    pub fn get_random_issue(&self) -> (r: Result<[u8; 16], BenchError>)
        ensures
            self.known_issues().len() == 0 <==> r is Err,
            r matches Err(e) ==> (e matches BenchError::Bench(m) && m@
                == "No known issues, will create one"@),
            r matches Ok(id) ==> self.known_issues().contains(id),
    {
        if self.known_issues.len() == 0 {
            Err(BenchError::Bench(String::from_str("No known issues, will create one")))
        } else {
            let idx = random_index(self.known_issues.len());
            let id = self.known_issues[idx];
            proof {
                assert(self.known_issues@[idx as int] == id);
            }
            Ok(id)
        }
    }

    /// Generate random title.
    pub fn random_title(&self) -> (s: String)
        requires
            self.title_pool().len() > 0,
        ensures
            exists|i: int| 0 <= i < self.title_pool().len() && s@ == agent_tagged(self.id, #[trigger] self.title_pool()[i]),
    {
        let idx = random_index(self.title_templates.len());
        let mut s = String::from_str("[Agent #");
        s.append(decimal_string(self.id as u64).as_str());
        s.append("] ");
        s.append(self.title_templates[idx]);
        proof {
            assert(self.title_pool()[idx as int] == self.title_templates@[idx as int]@);
        }
        s
    }

    /// Generate random body, stamped with the current UTC time.
    pub fn random_body(&self) -> (s: String)
        ensures
            exists|now: Seq<char>| s@ == "Task created by Agent #"@ + decimal_chars(self.id as nat) + " at "@
                + now + ".\n\nThis is a simulated task for benchmarking purposes."@,
    {
        let now = utc_now_text();
        let mut s = String::from_str("Task created by Agent #");
        s.append(decimal_string(self.id as u64).as_str());
        s.append(" at ");
        s.append(now.as_str());
        s.append(".\n\nThis is a simulated task for benchmarking purposes.");
        s
    }

    /// Generate random comment.
    pub fn random_comment(&self) -> (s: String)
        ensures
            exists|i: int| 0 <= i < 8 && s@ == agent_tagged(self.id, #[trigger] agent_comment_pool()[i]),
    {
        let idx = random_index(8);
        let mut s = String::from_str("[Agent #");
        s.append(decimal_string(self.id as u64).as_str());
        s.append("] ");
        s.append(agent_comment(idx));
        s
    }

    /// Get a random label.
    pub fn random_label(&self) -> (s: String)
        requires
            self.label_pool().len() > 0,
        ensures
            self.label_pool().contains(s@),
    {
        let idx = random_index(self.labels.len());
        let s = self.labels[idx].clone();
        proof {
            assert(self.label_pool()[idx as int] == s@);
        }
        s
    }

    /// Check if an error is due to contention.
    pub fn is_contention_error(&self, error: &FailureKind) -> (r: bool)
        ensures
            r == spec_is_contention(*error),
    {
        match error {
            FailureKind::Git { locked, message } => *locked || contains_str(message.as_str(), "reference")
                || contains_str(message.as_str(), "conflict"),
            FailureKind::DbBusy => true,
            FailureKind::Other => false,
        }
    }

    /// Random think time in milliseconds, or none for a scenario without think time.
    pub fn random_think_time(&self) -> (r: Option<u64>)
        requires
            self.scenario().think_time_ms.0 <= self.scenario().think_time_ms.1,
        ensures
            self.scenario().think_time_ms == (0u64, 0u64) <==> r is None,
            r matches Some(d) ==> self.scenario().think_time_ms.0 <= d <= self.scenario().think_time_ms.1,
    {
        let (min, max) = self.scenario.think_time_ms;
        if min == 0 && max == 0 {
            None
        } else {
            Some(random_in_range(min, max))
        }
    }
}

} // verus!
