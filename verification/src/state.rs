//! Supervisor and worker lifecycle state machines.

use vstd::prelude::*;
use vstd::string::*;
use std::sync::atomic::AtomicU8;
use std::sync::atomic::Ordering;
use crate::error::DaemonError;

verus! {

/// Lifecycle states for the supervisor.
#[derive(Debug, Clone, Copy, PartialEq, Eq, Structural)]
pub enum SupervisorState {
    /// Initial state before the accept loop begins
    Starting,
    /// Accepting connections and routing requests
    Running,
    /// Shutdown signal received, draining connections
    ShuttingDown,
    /// All workers stopped, cleanup complete
    Stopped,
}

/// The transitions the supervisor may take.
pub open spec fn is_valid_transition(from: SupervisorState, to: SupervisorState) -> bool {
    ||| (from == SupervisorState::Starting && to == SupervisorState::Running)
    ||| (from == SupervisorState::Starting && to == SupervisorState::ShuttingDown)
    ||| (from == SupervisorState::Running && to == SupervisorState::ShuttingDown)
    ||| (from == SupervisorState::ShuttingDown && to == SupervisorState::Stopped)
}

impl SupervisorState {
    /// The byte under which the state is stored.
    pub open spec fn spec_byte(self) -> u8 {
        match self {
            SupervisorState::Starting => 0,
            SupervisorState::Running => 1,
            SupervisorState::ShuttingDown => 2,
            SupervisorState::Stopped => 3,
        }
    }

    /// The state that a stored byte stands for; bytes past the last state read as `Stopped`.
    pub open spec fn spec_from_byte(b: u8) -> SupervisorState {
        if b == 0 {
            SupervisorState::Starting
        } else if b == 1 {
            SupervisorState::Running
        } else if b == 2 {
            SupervisorState::ShuttingDown
        } else {
            SupervisorState::Stopped
        }
    }

    /// The state's name as its debug form prints it.
    pub open spec fn spec_name(self) -> Seq<char> {
        match self {
            SupervisorState::Starting => "Starting"@,
            SupervisorState::Running => "Running"@,
            SupervisorState::ShuttingDown => "ShuttingDown"@,
            SupervisorState::Stopped => "Stopped"@,
        }
    }

    pub fn to_byte(self) -> (b: u8)
        ensures
            b == self.spec_byte(),
    {
        match self {
            SupervisorState::Starting => 0,
            SupervisorState::Running => 1,
            SupervisorState::ShuttingDown => 2,
            SupervisorState::Stopped => 3,
        }
    }

    pub fn from_byte(b: u8) -> (s: SupervisorState)
        ensures
            s == Self::spec_from_byte(b),
    {
        match b {
            0 => SupervisorState::Starting,
            1 => SupervisorState::Running,
            2 => SupervisorState::ShuttingDown,
            _ => SupervisorState::Stopped,
        }
    }

    pub fn name(self) -> (s: String)
        ensures
            s@ == self.spec_name(),
    {
        match self {
            SupervisorState::Starting => String::from_str("Starting"),
            SupervisorState::Running => String::from_str("Running"),
            SupervisorState::ShuttingDown => String::from_str("ShuttingDown"),
            SupervisorState::Stopped => String::from_str("Stopped"),
        }
    }

    /// Valid state transitions: returns `next` when the move is allowed and an
    /// `InvalidStateTransition` naming both states otherwise.
    pub fn transition(self, next: SupervisorState) -> (r: Result<SupervisorState, DaemonError>)
        ensures
            r is Ok <==> is_valid_transition(self, next),
            r matches Ok(s) ==> s == next,
            r matches Err(e) ==> (e matches DaemonError::InvalidStateTransition { from, to }
                && from@ == self.spec_name() && to@ == next.spec_name()),
    {
        let valid = match (self, next) {
            (SupervisorState::Starting, SupervisorState::Running) => true,
            (SupervisorState::Starting, SupervisorState::ShuttingDown) => true,
            (SupervisorState::Running, SupervisorState::ShuttingDown) => true,
            (SupervisorState::ShuttingDown, SupervisorState::Stopped) => true,
            _ => false,
        };
        if !valid {
            return Err(DaemonError::InvalidStateTransition { from: self.name(), to: next.name() });
        }
        Ok(next)
    }
}

/// Stopped is final: no transition leaves it.
pub proof fn lemma_stopped_is_terminal(next: SupervisorState)
    ensures
        !is_valid_transition(SupervisorState::Stopped, next),
{
}

/// The supervisor's run goes from starting to running, then shuts down and
/// stops; each step of that path, and shutting down straight from starting,
/// is an allowed transition.
pub proof fn lemma_supervisor_lifecycle_path()
    ensures
        is_valid_transition(SupervisorState::Starting, SupervisorState::Running),
        is_valid_transition(SupervisorState::Running, SupervisorState::ShuttingDown),
        is_valid_transition(SupervisorState::ShuttingDown, SupervisorState::Stopped),
        is_valid_transition(SupervisorState::Starting, SupervisorState::ShuttingDown),
{
}

/// The supervisor moves only along its lifecycle: from starting to running
/// or straight to shutting down, from running to shutting down, and from
/// shutting down to stopped; every other pair of states is refused.
pub proof fn lemma_supervisor_transitions_exactly(from: SupervisorState, to: SupervisorState)
    ensures
        is_valid_transition(from, to) <==> ((from == SupervisorState::Starting && to
            == SupervisorState::Running) || (from == SupervisorState::Starting && to
            == SupervisorState::ShuttingDown) || (from == SupervisorState::Running && to
            == SupervisorState::ShuttingDown) || (from == SupervisorState::ShuttingDown && to
            == SupervisorState::Stopped)),
{
}

/// The supervisor stops only after shutting down: `Stopped` is reached
/// from `ShuttingDown` and from no other state.
pub proof fn lemma_stopped_only_after_shutdown(from: SupervisorState)
    ensures
        is_valid_transition(from, SupervisorState::Stopped) <==> from == SupervisorState::ShuttingDown,
{
}

/// No transition ever returns to `Starting`.
pub proof fn lemma_never_back_to_starting(from: SupervisorState)
    ensures
        !is_valid_transition(from, SupervisorState::Starting),
{
}

/// Every allowed transition moves strictly forward in the lifecycle order, so
/// the supervisor can never cycle between states.
pub proof fn lemma_transitions_move_forward(from: SupervisorState, to: SupervisorState)
    requires
        is_valid_transition(from, to),
    ensures
        from.spec_byte() < to.spec_byte(),
{
}

/// Different supervisor states are stored under different bytes and have
/// different names.
pub proof fn lemma_supervisor_states_distinct(a: SupervisorState, b: SupervisorState)
    ensures
        a != b ==> a.spec_byte() != b.spec_byte(),
        a != b ==> a.spec_name() != b.spec_name(),
{
    reveal_strlit("Starting");
    reveal_strlit("Running");
    reveal_strlit("ShuttingDown");
    reveal_strlit("Stopped");
    assert("Starting"@.len() == 8 && "Starting"@[0] == 'S');
    assert("Running"@.len() == 7 && "Running"@[0] == 'R');
    assert("ShuttingDown"@.len() == 12 && "ShuttingDown"@[0] == 'S');
    assert("Stopped"@.len() == 7 && "Stopped"@[0] == 'S');
}

/// A supervisor state survives being stored as a byte and read back.
pub proof fn lemma_supervisor_byte_roundtrip(s: SupervisorState)
    ensures
        SupervisorState::spec_from_byte(s.spec_byte()) == s,
{
}

/// Lifecycle states for a worker.
#[derive(Debug, Clone, Copy, PartialEq, Eq, Structural)]
pub enum WorkerState {
    /// Opening sled store and WAL
    Initializing,
    /// Waiting for commands
    Idle,
    /// Processing one or more commands
    Busy,
    /// Shutdown message received, finishing in-flight work
    ShuttingDown,
    /// Event loop exited, resources released
    Stopped,
}

impl WorkerState {
    /// The byte under which the state is stored.
    pub open spec fn spec_byte(self) -> u8 {
        match self {
            WorkerState::Initializing => 0,
            WorkerState::Idle => 1,
            WorkerState::Busy => 2,
            WorkerState::ShuttingDown => 3,
            WorkerState::Stopped => 4,
        }
    }

    /// The state that a stored byte stands for; bytes past the last state read as `Stopped`.
    pub open spec fn spec_from_byte(b: u8) -> WorkerState {
        if b == 0 {
            WorkerState::Initializing
        } else if b == 1 {
            WorkerState::Idle
        } else if b == 2 {
            WorkerState::Busy
        } else if b == 3 {
            WorkerState::ShuttingDown
        } else {
            WorkerState::Stopped
        }
    }

    pub fn to_byte(self) -> (b: u8)
        ensures
            b == self.spec_byte(),
    {
        match self {
            WorkerState::Initializing => 0,
            WorkerState::Idle => 1,
            WorkerState::Busy => 2,
            WorkerState::ShuttingDown => 3,
            WorkerState::Stopped => 4,
        }
    }

    pub fn from_byte(b: u8) -> (s: WorkerState)
        ensures
            s == Self::spec_from_byte(b),
    {
        match b {
            0 => WorkerState::Initializing,
            1 => WorkerState::Idle,
            2 => WorkerState::Busy,
            3 => WorkerState::ShuttingDown,
            _ => WorkerState::Stopped,
        }
    }
}

/// Different worker states are stored under different bytes.
pub proof fn lemma_worker_states_distinct(a: WorkerState, b: WorkerState)
    ensures
        a != b ==> a.spec_byte() != b.spec_byte(),
{
}

/// A worker state survives being stored as a byte and read back.
pub proof fn lemma_worker_byte_roundtrip(s: WorkerState)
    ensures
        WorkerState::spec_from_byte(s.spec_byte()) == s,
{
}

/// Atomic storage for `SupervisorState` shared between tasks.
pub struct AtomicSupervisorState {
    inner: AtomicU8,
}

impl AtomicSupervisorState {
    pub fn new(state: SupervisorState) -> (r: Self) {
        AtomicSupervisorState { inner: AtomicU8::new(state.to_byte()) }
    }

    /// Reads the current state; the byte is decoded by `SupervisorState::from_byte`.
    /// A load cannot have release semantics.
    pub fn load(&self, ordering: Ordering) -> (s: SupervisorState)
        requires
            !(ordering is Release),
            !(ordering is AcqRel),
    {
        let b = self.inner.load(ordering);
        SupervisorState::from_byte(b)
    }

    /// Stores a state; a store cannot have acquire semantics.
    pub fn store(&self, state: SupervisorState, ordering: Ordering)
        requires
            !(ordering is Acquire),
            !(ordering is AcqRel),
    {
        self.inner.store(state.to_byte(), ordering);
    }

    /// Attempt a transition from whatever state is stored now. The ordering
    /// serves both the load and the store, so it is relaxed or sequentially
    /// consistent.
    pub fn transition(&self, next: SupervisorState, ordering: Ordering) -> (r: Result<
        SupervisorState,
        DaemonError,
    >)
        requires
            ordering is Relaxed || ordering is SeqCst,
        ensures
            r matches Ok(s) ==> s == next && exists|c: SupervisorState|
                is_valid_transition(c, next),
            r matches Err(e) ==> (e matches DaemonError::InvalidStateTransition { from, to }
                && to@ == next.spec_name() && exists|c: SupervisorState|
                from@ == c.spec_name() && !is_valid_transition(c, next)),
    {
        let current = self.load(ordering);
        let result = current.transition(next)?;
        self.store(result, ordering);
        Ok(result)
    }
}

/// Atomic storage for `WorkerState` shared between tasks.
pub struct AtomicWorkerState {
    inner: AtomicU8,
}

impl AtomicWorkerState {
    pub fn new(state: WorkerState) -> (r: Self) {
        AtomicWorkerState { inner: AtomicU8::new(state.to_byte()) }
    }

    /// Reads the current state; the byte is decoded by `WorkerState::from_byte`.
    /// A load cannot have release semantics.
    pub fn load(&self, ordering: Ordering) -> (s: WorkerState)
        requires
            !(ordering is Release),
            !(ordering is AcqRel),
    {
        let b = self.inner.load(ordering);
        WorkerState::from_byte(b)
    }

    /// Stores a state; a store cannot have acquire semantics.
    pub fn store(&self, state: WorkerState, ordering: Ordering)
        requires
            !(ordering is Acquire),
            !(ordering is AcqRel),
    {
        self.inner.store(state.to_byte(), ordering);
    }
}

} // verus!
