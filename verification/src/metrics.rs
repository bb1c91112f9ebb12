//! Benchmark metrics: operation counters, per-agent tallies, the throughput
//! history and the recent-events log.

use vstd::prelude::*;
use vstd::string::*;
use vstd::utf8::*;
use std::collections::VecDeque;
use crate::text::{byte_prefix, byte_prefix_chars};

verus! {

broadcast use vstd::std_specs::vecdeque::group_vec_dequeue_axioms;

/// Types of operations a simulated agent performs.
#[derive(Debug, Clone, Copy, PartialEq, Eq, Hash, Structural)]
pub enum OpType {
    CreateIssue,
    AddComment,
    AddLabel,
    RemoveLabel,
    UpdateIssue,
    CloseIssue,
}

impl OpType {
    pub open spec fn spec_str(self) -> Seq<char> {
        match self {
            OpType::CreateIssue => "create_issue"@,
            OpType::AddComment => "add_comment"@,
            OpType::AddLabel => "add_label"@,
            OpType::RemoveLabel => "remove_label"@,
            OpType::UpdateIssue => "update_issue"@,
            OpType::CloseIssue => "close_issue"@,
        }
    }

    pub fn as_str(&self) -> (s: &'static str)
        ensures
            s@ == self.spec_str(),
    {
        match self {
            OpType::CreateIssue => "create_issue",
            OpType::AddComment => "add_comment",
            OpType::AddLabel => "add_label",
            OpType::RemoveLabel => "remove_label",
            OpType::UpdateIssue => "update_issue",
            OpType::CloseIssue => "close_issue",
        }
    }
}

/// Status of a simulated agent.
#[derive(Debug, Clone, Copy, PartialEq, Eq, Structural)]
pub enum AgentStatus {
    Pending,
    Running,
    Paused,
    Complete,
    Failed,
}

impl AgentStatus {
    pub open spec fn spec_str(self) -> Seq<char> {
        match self {
            AgentStatus::Pending => "Pending"@,
            AgentStatus::Running => "Running"@,
            AgentStatus::Paused => "Paused"@,
            AgentStatus::Complete => "Complete"@,
            AgentStatus::Failed => "Failed"@,
        }
    }

    pub fn as_str(&self) -> (s: &'static str)
        ensures
            s@ == self.spec_str(),
    {
        match self {
            AgentStatus::Pending => "Pending",
            AgentStatus::Running => "Running",
            AgentStatus::Paused => "Paused",
            AgentStatus::Complete => "Complete",
            AgentStatus::Failed => "Failed",
        }
    }
}

impl Default for AgentStatus {
    fn default() -> (s: Self)
        ensures
            s == AgentStatus::Pending,
    {
        AgentStatus::Pending
    }
}

/// Per-agent metrics.
#[derive(Debug)]
pub struct AgentMetrics {
    pub agent_id: usize,
    pub actor_id_short: String,
    pub status: AgentStatus,
    pub events_total: u64,
    pub events_success: u64,
    pub events_failed: u64,
    pub contentions: u64,
}

impl AgentMetrics {
    /// A fresh, pending entry for agent `agent_id`.
    pub fn pending(agent_id: usize) -> (m: AgentMetrics)
        ensures
            m.agent_id == agent_id,
            m.actor_id_short@ == Seq::<char>::empty(),
            m.status == AgentStatus::Pending,
            m.events_total == 0,
            m.events_success == 0,
            m.events_failed == 0,
            m.contentions == 0,
    {
        AgentMetrics {
            agent_id,
            actor_id_short: String::new(),
            status: AgentStatus::Pending,
            events_total: 0,
            events_success: 0,
            events_failed: 0,
            contentions: 0,
        }
    }
}

impl Clone for AgentMetrics {
    fn clone(&self) -> (m: Self)
        ensures
            m == *self,
    {
        AgentMetrics {
            agent_id: self.agent_id,
            actor_id_short: self.actor_id_short.clone(),
            status: self.status,
            events_total: self.events_total,
            events_success: self.events_success,
            events_failed: self.events_failed,
            contentions: self.contentions,
        }
    }
}

impl Default for AgentMetrics {
    fn default() -> (m: Self)
        ensures
            m.agent_id == 0,
            m.actor_id_short@ == Seq::<char>::empty(),
            m.status == AgentStatus::Pending,
            m.events_total == 0,
            m.events_success == 0,
            m.events_failed == 0,
            m.contentions == 0,
    {
        AgentMetrics::pending(0)
    }
}

/// Latency percentiles, in microseconds.
#[derive(Debug, Clone, Copy, PartialEq, Eq, Structural)]
pub struct LatencyPercentiles {
    pub p50_us: u64,
    pub p95_us: u64,
    pub p99_us: u64,
    pub max_us: u64,
}

impl Default for LatencyPercentiles {
    fn default() -> (p: Self)
        ensures
            p.p50_us == 0 && p.p95_us == 0 && p.p99_us == 0 && p.max_us == 0,
    {
        LatencyPercentiles { p50_us: 0, p95_us: 0, p99_us: 0, max_us: 0 }
    }
}

/// The log after appending `entry` to `entries` with room for `max` entries.
pub open spec fn bounded_push<T>(entries: Seq<T>, entry: T, max: nat) -> Seq<T> {
    let pushed = entries.push(entry);
    if pushed.len() > max {
        pushed.drop_first()
    } else {
        pushed
    }
}

/// Event log (circular buffer of the most recent entries).
pub struct EventLog {
    entries: VecDeque<String>,
    max_entries: usize,
}

impl View for EventLog {
    type V = Seq<String>;

    closed spec fn view(&self) -> Seq<String> {
        self.entries@
    }
}

impl EventLog {
    /// The number of entries the log keeps.
    pub closed spec fn capacity(&self) -> nat {
        self.max_entries as nat
    }

    /// A log never holds more entries than its capacity.
    #[verifier::type_invariant]
    spec fn within_capacity(self) -> bool {
        self.entries@.len() <= self.max_entries
    }

    pub fn new(max_entries: usize) -> (log: Self)
        ensures
            log@ == Seq::<String>::empty(),
            log.capacity() == max_entries,
    {
        EventLog { entries: VecDeque::with_capacity(max_entries), max_entries }
    }

    /// Appends `entry`, dropping the oldest entry once the log is over
    /// capacity; the log never exceeds its capacity.
    pub fn add(&mut self, entry: String)
        ensures
            final(self)@ == bounded_push(old(self)@, entry, old(self).capacity()),
            final(self)@ == newest(old(self)@.push(entry), old(self).capacity()),
            final(self).capacity() == old(self).capacity(),
            final(self)@.len() <= final(self).capacity(),
    {
        proof {
            use_type_invariant(&*self);
            lemma_push_keeps_newest(self@, entry, self.capacity());
        }
        let mut entries: VecDeque<String> = VecDeque::new();
        std::mem::swap(&mut entries, &mut self.entries);
        entries.push_back(entry);
        if entries.len() > self.max_entries {
            entries.pop_front();
        }
        self.entries = entries;
    }

    /// The entries, oldest first; never more than the capacity.
    pub fn recent(&self) -> (v: Vec<String>)
        ensures
            v@ == self@,
            v@.len() <= self.capacity(),
    {
        proof {
            use_type_invariant(self);
        }
        let mut out: Vec<String> = Vec::new();
        let n = self.entries.len();
        let mut i: usize = 0;
        while i < n
            invariant
                n == self.entries@.len(),
                i <= n,
                out@ == self.entries@.subrange(0, i as int),
            decreases n - i,
        {
            out.push(self.entries[i].clone());
            proof {
                assert(self.entries@.subrange(0, i + 1) =~= self.entries@.subrange(0, i as int).push(self.entries@[i as int]));
            }
            i = i + 1;
        }
        proof {
            assert(self.entries@.subrange(0, n as int) =~= self.entries@);
        }
        out
    }
}


/// The log after appending each of `adds` in turn.
pub open spec fn replay_adds<T>(init: Seq<T>, adds: Seq<T>, max: nat) -> Seq<T>
    decreases adds.len(),
{
    if adds.len() == 0 {
        init
    } else {
        bounded_push(replay_adds(init, adds.drop_last(), max), adds.last(), max)
    }
}

/// The last `max` elements of `s` (all of it when it is shorter).
pub open spec fn newest<T>(s: Seq<T>, max: nat) -> Seq<T> {
    if s.len() <= max {
        s
    } else {
        s.subrange(s.len() - max, s.len() as int)
    }
}

/// A bounded log that starts within capacity holds, after any series of
/// appends, exactly the newest `max` of everything it has seen, oldest first;
/// in particular it never exceeds its capacity.
pub proof fn lemma_bounded_log_keeps_newest<T>(init: Seq<T>, adds: Seq<T>, max: nat)
    requires
        init.len() <= max,
    ensures
        replay_adds(init, adds, max) == newest(init + adds, max),
        replay_adds(init, adds, max).len() <= max,
    decreases adds.len(),
{
    if adds.len() == 0 {
        assert(init + adds =~= init);
    } else {
        let prev_adds = adds.drop_last();
        lemma_bounded_log_keeps_newest(init, prev_adds, max);
        let all_prev = init + prev_adds;
        let all = init + adds;
        assert(all =~= all_prev.push(adds.last()));
        let prev = replay_adds(init, prev_adds, max);
        let pushed = prev.push(adds.last());
        if all_prev.len() <= max {
            assert(prev == all_prev);
            if pushed.len() > max {
                assert(pushed.drop_first() =~= all.subrange(all.len() - max, all.len() as int));
            }
        } else {
            assert(pushed.drop_first() =~= all.subrange(all.len() - max, all.len() as int));
        }
    }
}


/// One append to a log within capacity keeps the newest `max` entries.
proof fn lemma_push_keeps_newest<T>(s: Seq<T>, entry: T, max: nat)
    requires
        s.len() <= max,
    ensures
        bounded_push(s, entry, max) == newest(s.push(entry), max),
{
    let pushed = s.push(entry);
    if pushed.len() > max {
        assert(pushed.drop_first() =~= pushed.subrange(pushed.len() - max, pushed.len() as int));
    }
}

/// The largest element of `s`, or 0 when it is empty.
pub open spec fn seq_max(s: Seq<u64>) -> u64
    decreases s.len(),
{
    if s.len() == 0 {
        0
    } else {
        let rest = seq_max(s.drop_last());
        if s.last() > rest {
            s.last()
        } else {
            rest
        }
    }
}

/// The newest sample, or 0 when there is none.
pub open spec fn seq_last_or_zero(s: Seq<u64>) -> u64 {
    if s.len() == 0 {
        0
    } else {
        s.last()
    }
}

/// `seq_max` bounds every element and is one of them (or 0 for an empty sequence).
pub proof fn lemma_seq_max_is_max(s: Seq<u64>)
    ensures
        forall|i: int| 0 <= i < s.len() ==> s[i] <= seq_max(s),
        s.len() == 0 ==> seq_max(s) == 0,
        s.len() > 0 ==> s.contains(seq_max(s)),
    decreases s.len(),
{
    if s.len() > 0 {
        lemma_seq_max_is_max(s.drop_last());
        assert forall|i: int| 0 <= i < s.len() implies s[i] <= seq_max(s) by {
            if i < s.len() - 1 {
                assert(s[i] == s.drop_last()[i]);
            }
        }
        if s.last() <= seq_max(s.drop_last()) && s.drop_last().len() > 0 {
            let j = choose|j: int| 0 <= j < s.drop_last().len() && s.drop_last()[j] == seq_max(s.drop_last());
            assert(s[j] == seq_max(s));
        }
        if s.drop_last().len() == 0 {
            assert(s[s.len() - 1] == s.last());
        }
    }
}

/// Throughput history: operations completed in each sampling interval.
pub struct ThroughputHistory {
    samples: VecDeque<u64>,
    max_samples: usize,
    last_count: u64,
}

impl View for ThroughputHistory {
    type V = Seq<u64>;

    closed spec fn view(&self) -> Seq<u64> {
        self.samples@
    }
}

impl ThroughputHistory {
    /// The number of samples kept.
    pub closed spec fn capacity(&self) -> nat {
        self.max_samples as nat
    }

    /// The operation count seen at the last sample.
    pub closed spec fn last_count(&self) -> u64 {
        self.last_count
    }

    /// The operation count seen at the last sample (0 before the first).
    pub fn sampled_count(&self) -> (r: u64)
        ensures
            r == self.last_count(),
    {
        self.last_count
    }

    /// A history never holds more samples than its capacity.
    #[verifier::type_invariant]
    spec fn within_capacity(self) -> bool {
        self.samples@.len() <= self.max_samples
    }

    pub fn new(max_samples: usize) -> (h: Self)
        ensures
            h@ == Seq::<u64>::empty(),
            h.capacity() == max_samples,
            h.last_count() == 0,
    {
        ThroughputHistory {
            samples: VecDeque::with_capacity(max_samples),
            max_samples,
            last_count: 0,
        }
    }

    /// Records the operations completed since the previous sample, given the
    /// running total `current_count`.
    pub fn add_sample(&mut self, current_count: u64)
        requires
            current_count >= old(self).last_count(),
        ensures
            final(self)@ == bounded_push(
                old(self)@,
                (current_count - old(self).last_count()) as u64,
                old(self).capacity(),
            ),
            final(self)@ == newest(
                old(self)@.push((current_count - old(self).last_count()) as u64),
                old(self).capacity(),
            ),
            final(self).last_count() == current_count,
            final(self).capacity() == old(self).capacity(),
            final(self)@.len() <= final(self).capacity(),
    {
        proof {
            use_type_invariant(&*self);
            lemma_push_keeps_newest(self@, (current_count - self.last_count()) as u64, self.capacity());
        }
        let rate = current_count - self.last_count;
        self.last_count = current_count;
        let mut samples: VecDeque<u64> = VecDeque::new();
        std::mem::swap(&mut samples, &mut self.samples);
        samples.push_back(rate);
        if samples.len() > self.max_samples {
            samples.pop_front();
        }
        self.samples = samples;
    }

    /// Operations in the newest interval (0 before the first sample).
    pub fn current_rate(&self) -> (r: u64)
        ensures
            r == seq_last_or_zero(self@),
    {
        let n = self.samples.len();
        if n == 0 {
            0
        } else {
            self.samples[n - 1]
        }
    }

    /// The busiest interval still in the history (0 when empty).
    pub fn peak_rate(&self) -> (r: u64)
        ensures
            r == seq_max(self@),
    {
        let n = self.samples.len();
        let mut best: u64 = 0;
        let mut i: usize = 0;
        while i < n
            invariant
                n == self.samples@.len(),
                i <= n,
                best == seq_max(self.samples@.subrange(0, i as int)),
            decreases n - i,
        {
            let v = self.samples[i];
            proof {
                let pre = self.samples@.subrange(0, i + 1);
                assert(pre.drop_last() =~= self.samples@.subrange(0, i as int));
                assert(pre.last() == v);
            }
            if v > best {
                best = v;
            }
            i = i + 1;
        }
        proof {
            assert(self.samples@.subrange(0, n as int) =~= self.samples@);
        }
        best
    }

    /// The samples, oldest first.
    pub fn samples(&self) -> (v: Vec<u64>)
        ensures
            v@ == self@,
            v@.len() <= self.capacity(),
    {
        proof {
            use_type_invariant(self);
        }
        let mut out: Vec<u64> = Vec::new();
        let n = self.samples.len();
        let mut i: usize = 0;
        while i < n
            invariant
                n == self.samples@.len(),
                i <= n,
                out@ == self.samples@.subrange(0, i as int),
            decreases n - i,
        {
            out.push(self.samples[i]);
            proof {
                assert(self.samples@.subrange(0, i + 1) =~= self.samples@.subrange(0, i as int).push(self.samples@[i as int]));
            }
            i = i + 1;
        }
        proof {
            assert(self.samples@.subrange(0, n as int) =~= self.samples@);
        }
        out
    }
}

/// The peak throughput is never below the current throughput.
pub proof fn lemma_peak_at_least_current(samples: Seq<u64>)
    ensures
        seq_max(samples) >= seq_last_or_zero(samples),
{
    lemma_seq_max_is_max(samples);
    if samples.len() > 0 {
        assert(samples[samples.len() - 1] == samples.last());
    }
}


/// `x + 1` as a wrapping 64-bit counter increments it.
pub open spec fn wrap_inc(x: u64) -> u64 {
    if x == u64::MAX {
        0
    } else {
        (x + 1) as u64
    }
}

fn counter_inc(x: u64) -> (r: u64)
    ensures
        r == wrap_inc(x),
{
    x.wrapping_add(1)
}

/// `s` ending in `suffix`, modulo the cut at byte 8 applied to agent actor ids.
pub open spec fn short_actor_id(actor_id: Seq<char>) -> Seq<char> {
    if encode_utf8(actor_id).len() > 8 {
        byte_prefix_chars(actor_id, 8) + "..."@
    } else {
        actor_id
    }
}

/// A fresh entry for agent `i`: pending, no actor id, nothing counted.
pub open spec fn is_fresh_agent(a: AgentMetrics, i: int) -> bool {
    &&& a.agent_id == i
    &&& a.actor_id_short@ == Seq::<char>::empty()
    &&& a.status == AgentStatus::Pending
    &&& a.events_total == 0
    &&& a.events_success == 0
    &&& a.events_failed == 0
    &&& a.contentions == 0
}

/// `a` after counting one event.
pub open spec fn counted_event(a: AgentMetrics, success: bool, had_contention: bool) -> AgentMetrics {
    AgentMetrics {
        events_total: (a.events_total + 1) as u64,
        events_success: if success {
            (a.events_success + 1) as u64
        } else {
            a.events_success
        },
        events_failed: if success {
            a.events_failed
        } else {
            (a.events_failed + 1) as u64
        },
        contentions: if had_contention {
            (a.contentions + 1) as u64
        } else {
            a.contentions
        },
        ..a
    }
}

/// `b` is `a` with only its status changed, to `status`.
pub open spec fn status_changed(a: AgentMetrics, b: AgentMetrics, status: AgentStatus) -> bool {
    b == AgentMetrics { status, ..a }
}

/// `b` is `a` with only its short actor id changed.
pub open spec fn short_id_changed(a: AgentMetrics, b: AgentMetrics) -> bool {
    b == AgentMetrics { actor_id_short: b.actor_id_short, ..a }
}

/// How many of the recorded operations succeeded.
pub open spec fn successes(ops: Seq<(OpType, bool)>) -> nat
    decreases ops.len(),
{
    if ops.len() == 0 {
        0
    } else {
        successes(ops.drop_last()) + if ops.last().1 {
            1nat
        } else {
            0nat
        }
    }
}

/// How many of the recorded operations failed.
pub open spec fn failures(ops: Seq<(OpType, bool)>) -> nat
    decreases ops.len(),
{
    if ops.len() == 0 {
        0
    } else {
        failures(ops.drop_last()) + if ops.last().1 {
            0nat
        } else {
            1nat
        }
    }
}

/// How many of the recorded operations of kind `op` succeeded.
pub open spec fn successes_of(ops: Seq<(OpType, bool)>, op: OpType) -> nat
    decreases ops.len(),
{
    if ops.len() == 0 {
        0
    } else {
        successes_of(ops.drop_last(), op) + if ops.last().1 && ops.last().0 == op {
            1nat
        } else {
            0nat
        }
    }
}

/// Every recorded operation is a success or a failure, and every success is
/// of exactly one kind.
pub proof fn lemma_recording_counts(ops: Seq<(OpType, bool)>)
    ensures
        successes(ops) + failures(ops) == ops.len(),
        successes(ops) == successes_of(ops, OpType::CreateIssue) + successes_of(ops, OpType::AddComment)
            + successes_of(ops, OpType::AddLabel) + successes_of(ops, OpType::RemoveLabel)
            + successes_of(ops, OpType::UpdateIssue) + successes_of(ops, OpType::CloseIssue),
    decreases ops.len(),
{
    if ops.len() > 0 {
        lemma_recording_counts(ops.drop_last());
    }
}

/// The metrics of a run at one moment, for rendering.
pub struct MetricsSnapshot {
    pub total_operations: u64,
    pub successful_operations: u64,
    pub failed_operations: u64,
    pub wal_contentions: u64,
    pub db_lock_waits: u64,
    pub crdt_conflicts: u64,
    pub issues_created: u64,
    pub comments_added: u64,
    pub labels_added: u64,
    pub labels_removed: u64,
    pub issues_updated: u64,
    pub issues_closed: u64,
    /// Operations per sampled interval, oldest first.
    pub throughput_history: Vec<u64>,
    /// Operations in the newest interval.
    pub current_throughput: u64,
    /// Operations in the busiest interval still held.
    pub peak_throughput: u64,
    pub agent_metrics: Vec<AgentMetrics>,
    /// Recent events, oldest first.
    pub event_log: Vec<String>,
}

/// Metrics collector for a benchmark run.
///
/// Operation counters wrap around at `u64::MAX`, like the atomic counters they
/// stand for.
pub struct MetricsCollector {
    pub total_operations: u64,
    pub successful_operations: u64,
    pub failed_operations: u64,
    pub wal_contentions: u64,
    pub db_lock_waits: u64,
    pub crdt_conflicts: u64,
    pub issues_created: u64,
    pub comments_added: u64,
    pub labels_added: u64,
    pub labels_removed: u64,
    pub issues_updated: u64,
    pub issues_closed: u64,
    pub agent_metrics: Vec<AgentMetrics>,
    pub throughput_history: ThroughputHistory,
    pub event_log: EventLog,
}

impl MetricsCollector {
    /// Per-agent entries, by agent index.
    pub open spec fn agents(&self) -> Seq<AgentMetrics> {
        self.agent_metrics@
    }

    /// The throughput history's samples.
    pub open spec fn throughput(&self) -> Seq<u64> {
        self.throughput_history@
    }

    pub open spec fn throughput_capacity(&self) -> nat {
        self.throughput_history.capacity()
    }

    /// The running total at the last throughput sample.
    pub open spec fn last_sampled_total(&self) -> u64 {
        self.throughput_history.last_count()
    }

    /// The recent-events log.
    pub open spec fn events(&self) -> Seq<String> {
        self.event_log@
    }

    pub open spec fn events_capacity(&self) -> nat {
        self.event_log.capacity()
    }

    /// The total has not fallen behind the last throughput sample.
    pub open spec fn wf(&self) -> bool {
        self.last_sampled_total() <= self.total_operations
    }

    /// The per-type counter that a successful operation of type `op` bumps.
    pub open spec fn op_count(&self, op: OpType) -> u64 {
        match op {
            OpType::CreateIssue => self.issues_created,
            OpType::AddComment => self.comments_added,
            OpType::AddLabel => self.labels_added,
            OpType::RemoveLabel => self.labels_removed,
            OpType::UpdateIssue => self.issues_updated,
            OpType::CloseIssue => self.issues_closed,
        }
    }

    /// Every operation is counted once as a success or a failure, and every
    /// success once under its type.
    pub open spec fn counts_consistent(&self) -> bool {
        &&& self.total_operations == self.successful_operations + self.failed_operations
        &&& self.successful_operations == self.issues_created + self.comments_added
            + self.labels_added + self.labels_removed + self.issues_updated + self.issues_closed
    }

    /// The operation counters are those of the series `ops` of recordings,
    /// each a kind and whether it succeeded.
    pub open spec fn counts_recordings(&self, ops: Seq<(OpType, bool)>) -> bool {
        &&& self.total_operations == ops.len()
        &&& self.successful_operations == successes(ops)
        &&& self.failed_operations == failures(ops)
        &&& forall|op: OpType| #[trigger] self.op_count(op) == successes_of(ops, op)
    }

    /// Everything but the operation counters is the same in `a` and `b`.
    pub open spec fn same_except_counters(a: &Self, b: &Self) -> bool {
        &&& a.agents() == b.agents()
        &&& a.throughput() == b.throughput()
        &&& a.throughput_capacity() == b.throughput_capacity()
        &&& a.last_sampled_total() == b.last_sampled_total()
        &&& a.events() == b.events()
        &&& a.events_capacity() == b.events_capacity()
    }

    /// Only `agents` may differ between `a` and `b`.
    pub open spec fn same_except_agents(a: &Self, b: &Self) -> bool {
        &&& a.total_operations == b.total_operations
        &&& a.successful_operations == b.successful_operations
        &&& a.failed_operations == b.failed_operations
        &&& a.wal_contentions == b.wal_contentions
        &&& a.db_lock_waits == b.db_lock_waits
        &&& a.crdt_conflicts == b.crdt_conflicts
        &&& forall|op: OpType| #[trigger] a.op_count(op) == b.op_count(op)
        &&& a.throughput() == b.throughput()
        &&& a.throughput_capacity() == b.throughput_capacity()
        &&& a.last_sampled_total() == b.last_sampled_total()
        &&& a.events() == b.events()
        &&& a.events_capacity() == b.events_capacity()
    }

    pub fn new(agent_count: usize) -> (m: Self)
        ensures
            m.agents().len() == agent_count,
            forall|i: int| 0 <= i < agent_count ==> is_fresh_agent(#[trigger] m.agents()[i], i),
            m.total_operations == 0 && m.successful_operations == 0 && m.failed_operations == 0,
            m.wal_contentions == 0 && m.db_lock_waits == 0 && m.crdt_conflicts == 0,
            forall|op: OpType| #[trigger] m.op_count(op) == 0,
            m.throughput() == Seq::<u64>::empty(),
            m.throughput_capacity() == 60,
            m.last_sampled_total() == 0,
            m.events() == Seq::<String>::empty(),
            m.events_capacity() == 100,
            m.wf(),
            m.counts_consistent(),
            m.counts_recordings(Seq::empty()),
    {
        let mut agents: Vec<AgentMetrics> = Vec::new();
        let mut id: usize = 0;
        while id < agent_count
            invariant
                id <= agent_count,
                agents@.len() == id,
                forall|i: int| 0 <= i < id ==> is_fresh_agent(#[trigger] agents@[i], i),
            decreases agent_count - id,
        {
            agents.push(AgentMetrics::pending(id));
            id = id + 1;
        }
        MetricsCollector {
            total_operations: 0,
            successful_operations: 0,
            failed_operations: 0,
            wal_contentions: 0,
            db_lock_waits: 0,
            crdt_conflicts: 0,
            issues_created: 0,
            comments_added: 0,
            labels_added: 0,
            labels_removed: 0,
            issues_updated: 0,
            issues_closed: 0,
            agent_metrics: agents,
            throughput_history: ThroughputHistory::new(60),
            event_log: EventLog::new(100),
        }
    }

    /// Record a completed operation.
    pub fn record_operation(&mut self, op_type: OpType, success: bool)
        ensures
            final(self).total_operations == wrap_inc(old(self).total_operations),
            success ==> final(self).successful_operations == wrap_inc(
                old(self).successful_operations,
            ) && final(self).failed_operations == old(self).failed_operations
                && final(self).op_count(op_type) == wrap_inc(old(self).op_count(op_type)),
            !success ==> final(self).failed_operations == wrap_inc(old(self).failed_operations)
                && final(self).successful_operations == old(self).successful_operations
                && final(self).op_count(op_type) == old(self).op_count(op_type),
            forall|op: OpType| op != op_type ==> #[trigger] final(self).op_count(op) == old(
                self,
            ).op_count(op),
            final(self).wal_contentions == old(self).wal_contentions,
            final(self).db_lock_waits == old(self).db_lock_waits,
            final(self).crdt_conflicts == old(self).crdt_conflicts,
            Self::same_except_counters(&*final(self), &*old(self)),
            old(self).wf() && old(self).total_operations < u64::MAX ==> final(self).wf(),
            old(self).counts_consistent() && old(self).total_operations < u64::MAX
                ==> final(self).counts_consistent(),
            *final(self) == recorded(*old(self), op_type, success),
    {
        self.total_operations = counter_inc(self.total_operations);
        if success {
            self.successful_operations = counter_inc(self.successful_operations);
            match op_type {
                OpType::CreateIssue => {
                    self.issues_created = counter_inc(self.issues_created);
                },
                OpType::AddComment => {
                    self.comments_added = counter_inc(self.comments_added);
                },
                OpType::AddLabel => {
                    self.labels_added = counter_inc(self.labels_added);
                },
                OpType::RemoveLabel => {
                    self.labels_removed = counter_inc(self.labels_removed);
                },
                OpType::UpdateIssue => {
                    self.issues_updated = counter_inc(self.issues_updated);
                },
                OpType::CloseIssue => {
                    self.issues_closed = counter_inc(self.issues_closed);
                },
            }
        } else {
            self.failed_operations = counter_inc(self.failed_operations);
        }
    }

    /// Record a WAL contention event.
    pub fn record_wal_contention(&mut self)
        ensures
            final(self).wal_contentions == wrap_inc(old(self).wal_contentions),
            final(self).total_operations == old(self).total_operations,
            final(self).successful_operations == old(self).successful_operations,
            final(self).failed_operations == old(self).failed_operations,
            final(self).db_lock_waits == old(self).db_lock_waits,
            final(self).crdt_conflicts == old(self).crdt_conflicts,
            forall|op: OpType| #[trigger] final(self).op_count(op) == old(self).op_count(op),
            Self::same_except_counters(&*final(self), &*old(self)),
    {
        self.wal_contentions = counter_inc(self.wal_contentions);
    }

    /// Record a CRDT conflict (LWW overwrite).
    pub fn record_crdt_conflict(&mut self)
        ensures
            final(self).crdt_conflicts == wrap_inc(old(self).crdt_conflicts),
            final(self).total_operations == old(self).total_operations,
            final(self).successful_operations == old(self).successful_operations,
            final(self).failed_operations == old(self).failed_operations,
            final(self).wal_contentions == old(self).wal_contentions,
            final(self).db_lock_waits == old(self).db_lock_waits,
            forall|op: OpType| #[trigger] final(self).op_count(op) == old(self).op_count(op),
            Self::same_except_counters(&*final(self), &*old(self)),
    {
        self.crdt_conflicts = counter_inc(self.crdt_conflicts);
    }

    /// Record a database lock wait.
    pub fn record_db_lock_wait(&mut self)
        ensures
            final(self).db_lock_waits == wrap_inc(old(self).db_lock_waits),
            final(self).total_operations == old(self).total_operations,
            final(self).successful_operations == old(self).successful_operations,
            final(self).failed_operations == old(self).failed_operations,
            final(self).wal_contentions == old(self).wal_contentions,
            final(self).crdt_conflicts == old(self).crdt_conflicts,
            forall|op: OpType| #[trigger] final(self).op_count(op) == old(self).op_count(op),
            Self::same_except_counters(&*final(self), &*old(self)),
    {
        self.db_lock_waits = counter_inc(self.db_lock_waits);
    }

    /// Update an agent's status; unknown agents are ignored.
    pub fn update_agent_status(&mut self, agent_id: usize, status: AgentStatus)
        ensures
            final(self).agents().len() == old(self).agents().len(),
            forall|i: int| 0 <= i < old(self).agents().len() && i != agent_id ==>
                #[trigger] final(self).agents()[i] == old(self).agents()[i],
            agent_id < old(self).agents().len() ==> status_changed(
                old(self).agents()[agent_id as int],
                final(self).agents()[agent_id as int],
                status,
            ),
            Self::same_except_agents(&*final(self), &*old(self)),
    {
        if agent_id < self.agent_metrics.len() {
            let mut agent = self.agent_metrics[agent_id].clone();
            agent.status = status;
            self.agent_metrics.set(agent_id, agent);
        }
    }

    /// Set an agent's short actor id: the first 8 bytes of `actor_id` followed
    /// by `...` when it is longer than that. Unknown agents are ignored.
    pub fn set_agent_actor_id(&mut self, agent_id: usize, actor_id: &str)
        requires
            actor_id.spec_bytes().len() <= usize::MAX,
            agent_id < old(self).agents().len() ==> (actor_id.spec_bytes().len() <= 8
                || is_char_boundary(actor_id.spec_bytes(), 8)),
        ensures
            final(self).agents().len() == old(self).agents().len(),
            forall|i: int| 0 <= i < old(self).agents().len() && i != agent_id ==>
                #[trigger] final(self).agents()[i] == old(self).agents()[i],
            agent_id < old(self).agents().len() ==> short_id_changed(
                old(self).agents()[agent_id as int],
                final(self).agents()[agent_id as int],
            ),
            agent_id < old(self).agents().len() ==> final(self).agents()[agent_id as int].actor_id_short@
                == short_actor_id(actor_id@),
            Self::same_except_agents(&*final(self), &*old(self)),
    {
        if agent_id < self.agent_metrics.len() {
            let short = if actor_id.len() > 8 {
                let head = byte_prefix(actor_id, 8);
                String::from_str(head).concat("...")
            } else {
                String::from_str(actor_id)
            };
            let mut agent = self.agent_metrics[agent_id].clone();
            agent.actor_id_short = short;
            self.agent_metrics.set(agent_id, agent);
        }
    }

    /// Count one more event for an agent; unknown agents are ignored.
    pub fn update_agent_metrics(&mut self, agent_id: usize, success: bool, had_contention: bool)
        requires
            agent_id < old(self).agents().len() ==> {
                let a = old(self).agents()[agent_id as int];
                &&& a.events_total < u64::MAX
                &&& success ==> a.events_success < u64::MAX
                &&& !success ==> a.events_failed < u64::MAX
                &&& had_contention ==> a.contentions < u64::MAX
            },
        ensures
            final(self).agents() == (if agent_id < old(self).agents().len() {
                old(self).agents().update(
                    agent_id as int,
                    counted_event(old(self).agents()[agent_id as int], success, had_contention),
                )
            } else {
                old(self).agents()
            }),
            Self::same_except_agents(&*final(self), &*old(self)),
    {
        if agent_id < self.agent_metrics.len() {
            let mut agent = self.agent_metrics[agent_id].clone();
            agent.events_total = agent.events_total + 1;
            if success {
                agent.events_success = agent.events_success + 1;
            } else {
                agent.events_failed = agent.events_failed + 1;
            }
            if had_contention {
                agent.contentions = agent.contentions + 1;
            }
            self.agent_metrics.set(agent_id, agent);
        }
    }

    /// Add a message to the recent-events log.
    pub fn log_event(&mut self, message: String)
        ensures
            final(self).events() == bounded_push(old(self).events(), message, old(self).events_capacity()),
            final(self).events_capacity() == old(self).events_capacity(),
            final(self).events().len() <= final(self).events_capacity(),
            final(self).agents() == old(self).agents(),
            final(self).throughput() == old(self).throughput(),
            final(self).throughput_capacity() == old(self).throughput_capacity(),
            final(self).last_sampled_total() == old(self).last_sampled_total(),
            final(self).total_operations == old(self).total_operations,
            final(self).successful_operations == old(self).successful_operations,
            final(self).failed_operations == old(self).failed_operations,
    {
        self.event_log.add(message);
    }

    /// Take a throughput sample from the running total (call once per second).
    pub fn update_throughput_sample(&mut self)
        requires
            old(self).wf(),
        ensures
            final(self).throughput() == bounded_push(
                old(self).throughput(),
                (old(self).total_operations - old(self).last_sampled_total()) as u64,
                old(self).throughput_capacity(),
            ),
            final(self).last_sampled_total() == old(self).total_operations,
            final(self).throughput_capacity() == old(self).throughput_capacity(),
            final(self).throughput().len() <= final(self).throughput_capacity(),
            final(self).wf(),
            final(self).agents() == old(self).agents(),
            final(self).events() == old(self).events(),
            final(self).total_operations == old(self).total_operations,
            final(self).successful_operations == old(self).successful_operations,
            final(self).failed_operations == old(self).failed_operations,
    {
        let current = self.total_operations;
        self.throughput_history.add_sample(current);
    }

    /// A copy of the per-agent metrics.
    pub fn agent_metrics(&self) -> (v: Vec<AgentMetrics>)
        ensures
            v@ == self.agents(),
    {
        let mut out: Vec<AgentMetrics> = Vec::new();
        let n = self.agent_metrics.len();
        let mut i: usize = 0;
        while i < n
            invariant
                n == self.agent_metrics@.len(),
                i <= n,
                out@ == self.agent_metrics@.subrange(0, i as int),
            decreases n - i,
        {
            out.push(self.agent_metrics[i].clone());
            proof {
                assert(self.agent_metrics@.subrange(0, i + 1) =~= self.agent_metrics@.subrange(0, i as int).push(self.agent_metrics@[i as int]));
            }
            i = i + 1;
        }
        proof {
            assert(self.agent_metrics@.subrange(0, n as int) =~= self.agent_metrics@);
        }
        out
    }

    /// The recent-events log, oldest first.
    pub fn recent_events(&self) -> (v: Vec<String>)
        ensures
            v@ == self.events(),
            v@.len() <= self.events_capacity(),
    {
        self.event_log.recent()
    }

    /// The throughput samples, oldest first.
    pub fn throughput_samples(&self) -> (v: Vec<u64>)
        ensures
            v@ == self.throughput(),
            v@.len() <= self.throughput_capacity(),
    {
        self.throughput_history.samples()
    }

    /// The running total at the last throughput sample.
    pub fn sampled_total(&self) -> (r: u64)
        ensures
            r == self.last_sampled_total(),
    {
        self.throughput_history.sampled_count()
    }

    /// Operations in the newest throughput interval.
    pub fn current_throughput(&self) -> (r: u64)
        ensures
            r == seq_last_or_zero(self.throughput()),
    {
        self.throughput_history.current_rate()
    }

    /// The busiest throughput interval still in the history.
    pub fn peak_throughput(&self) -> (r: u64)
        ensures
            r == seq_max(self.throughput()),
    {
        self.throughput_history.peak_rate()
    }

    /// A copy of every count, the throughput history and its current and
    /// peak rates, the per-agent metrics and the recent events, taken at
    /// once. Latencies and the elapsed time are measured by the caller.
    pub fn snapshot(&self) -> (r: MetricsSnapshot)
        ensures
            r.total_operations == self.total_operations,
            r.successful_operations == self.successful_operations,
            r.failed_operations == self.failed_operations,
            r.wal_contentions == self.wal_contentions,
            r.db_lock_waits == self.db_lock_waits,
            r.crdt_conflicts == self.crdt_conflicts,
            r.issues_created == self.issues_created,
            r.comments_added == self.comments_added,
            r.labels_added == self.labels_added,
            r.labels_removed == self.labels_removed,
            r.issues_updated == self.issues_updated,
            r.issues_closed == self.issues_closed,
            r.throughput_history@ == self.throughput(),
            r.current_throughput == seq_last_or_zero(self.throughput()),
            r.peak_throughput == seq_max(self.throughput()),
            r.agent_metrics@ == self.agents(),
            r.event_log@ == self.events(),
    {
        MetricsSnapshot {
            total_operations: self.total_operations,
            successful_operations: self.successful_operations,
            failed_operations: self.failed_operations,
            wal_contentions: self.wal_contentions,
            db_lock_waits: self.db_lock_waits,
            crdt_conflicts: self.crdt_conflicts,
            issues_created: self.issues_created,
            comments_added: self.comments_added,
            labels_added: self.labels_added,
            labels_removed: self.labels_removed,
            issues_updated: self.issues_updated,
            issues_closed: self.issues_closed,
            throughput_history: self.throughput_samples(),
            current_throughput: self.current_throughput(),
            peak_throughput: self.peak_throughput(),
            agent_metrics: self.agent_metrics(),
            event_log: self.recent_events(),
        }
    }
}

/// `x` advanced by one (wrapping) when `cond` holds, else `x`.
pub open spec fn bump_if(x: u64, cond: bool) -> u64 {
    if cond {
        wrap_inc(x)
    } else {
        x
    }
}

/// The collector after recording one operation of kind `op` that succeeded
/// or failed: the total moves, then the success or failure count, and on
/// success the counter of its kind; nothing else changes.
pub open spec fn recorded(m: MetricsCollector, op: OpType, success: bool) -> MetricsCollector {
    MetricsCollector {
        total_operations: wrap_inc(m.total_operations),
        successful_operations: bump_if(m.successful_operations, success),
        failed_operations: bump_if(m.failed_operations, !success),
        issues_created: bump_if(m.issues_created, success && op == OpType::CreateIssue),
        comments_added: bump_if(m.comments_added, success && op == OpType::AddComment),
        labels_added: bump_if(m.labels_added, success && op == OpType::AddLabel),
        labels_removed: bump_if(m.labels_removed, success && op == OpType::RemoveLabel),
        issues_updated: bump_if(m.issues_updated, success && op == OpType::UpdateIssue),
        issues_closed: bump_if(m.issues_closed, success && op == OpType::CloseIssue),
        ..m
    }
}

/// The collector after recording the series `ops`, in order.
pub open spec fn replay_recordings(m: MetricsCollector, ops: Seq<(OpType, bool)>) -> MetricsCollector
    decreases ops.len(),
{
    if ops.len() == 0 {
        m
    } else {
        recorded(replay_recordings(m, ops.drop_last()), ops.last().0, ops.last().1)
    }
}

proof fn lemma_replay_counts(m: MetricsCollector, ops: Seq<(OpType, bool)>)
    requires
        m.counts_recordings(Seq::empty()),
        ops.len() < u64::MAX,
    ensures
        replay_recordings(m, ops).counts_recordings(ops),
    decreases ops.len(),
{
    if ops.len() > 0 {
        let prev = ops.drop_last();
        lemma_replay_counts(m, prev);
        lemma_recording_counts(prev);
        let before = replay_recordings(m, prev);
        let after = replay_recordings(m, ops);
        assert forall|op: OpType| #[trigger] after.op_count(op) == successes_of(ops, op) by {
            assert(before.op_count(op) == successes_of(prev, op));
        }
    }
}

/// A fresh collector (all operation counters zero) that records any series
/// of operations, one call after another, ends with its total equal to the
/// number of calls, the total split into successes and failures, and the
/// successes split into the six per-kind counters.
pub proof fn lemma_counters_after_recordings(m: MetricsCollector, ops: Seq<(OpType, bool)>)
    requires
        m.counts_recordings(Seq::empty()),
        ops.len() < u64::MAX,
    ensures
        replay_recordings(m, ops).total_operations == ops.len(),
        replay_recordings(m, ops).total_operations == replay_recordings(m, ops).successful_operations
            + replay_recordings(m, ops).failed_operations,
        replay_recordings(m, ops).successful_operations == replay_recordings(m, ops).issues_created
            + replay_recordings(m, ops).comments_added + replay_recordings(m, ops).labels_added
            + replay_recordings(m, ops).labels_removed + replay_recordings(m, ops).issues_updated
            + replay_recordings(m, ops).issues_closed,
{
    lemma_replay_counts(m, ops);
    lemma_recording_counts(ops);
    let r = replay_recordings(m, ops);
    assert(r.op_count(OpType::CreateIssue) == successes_of(ops, OpType::CreateIssue));
    assert(r.op_count(OpType::AddComment) == successes_of(ops, OpType::AddComment));
    assert(r.op_count(OpType::AddLabel) == successes_of(ops, OpType::AddLabel));
    assert(r.op_count(OpType::RemoveLabel) == successes_of(ops, OpType::RemoveLabel));
    assert(r.op_count(OpType::UpdateIssue) == successes_of(ops, OpType::UpdateIssue));
    assert(r.op_count(OpType::CloseIssue) == successes_of(ops, OpType::CloseIssue));
}

} // verus!
