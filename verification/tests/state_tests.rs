use grite::error::DaemonError;
use grite::state::{AtomicSupervisorState, AtomicWorkerState, SupervisorState, WorkerState};
use std::sync::atomic::Ordering;

const ALL: [SupervisorState; 4] = [
    SupervisorState::Starting,
    SupervisorState::Running,
    SupervisorState::ShuttingDown,
    SupervisorState::Stopped,
];

#[test]
fn supervisor_lifecycle_in_order() {
    let s = SupervisorState::Starting;
    let s = s.transition(SupervisorState::Running).unwrap();
    let s = s.transition(SupervisorState::ShuttingDown).unwrap();
    let s = s.transition(SupervisorState::Stopped).unwrap();
    assert_eq!(s, SupervisorState::Stopped);
}

#[test]
fn starting_may_shut_down_directly() {
    assert_eq!(
        SupervisorState::Starting.transition(SupervisorState::ShuttingDown).unwrap(),
        SupervisorState::ShuttingDown
    );
}

#[test]
fn stopped_is_terminal() {
    for next in ALL {
        assert!(SupervisorState::Stopped.transition(next).is_err());
    }
}

#[test]
fn nothing_returns_to_starting() {
    for from in ALL {
        assert!(from.transition(SupervisorState::Starting).is_err());
    }
}

#[test]
fn invalid_transition_names_both_states() {
    match SupervisorState::Running.transition(SupervisorState::Stopped) {
        Err(DaemonError::InvalidStateTransition { from, to }) => {
            assert_eq!(from, "Running");
            assert_eq!(to, "Stopped");
        }
        other => panic!("unexpected {:?}", other),
    }
}

#[test]
fn allowed_transitions_move_forward() {
    for from in ALL {
        for to in ALL {
            if from.transition(to).is_ok() {
                assert!(from.to_byte() < to.to_byte());
            }
        }
    }
}

#[test]
fn state_bytes_round_trip() {
    for s in ALL {
        assert_eq!(SupervisorState::from_byte(s.to_byte()), s);
    }
    for w in [
        WorkerState::Initializing,
        WorkerState::Idle,
        WorkerState::Busy,
        WorkerState::ShuttingDown,
        WorkerState::Stopped,
    ] {
        assert_eq!(WorkerState::from_byte(w.to_byte()), w);
    }
}

#[test]
fn atomic_supervisor_state_follows_transitions() {
    let a = AtomicSupervisorState::new(SupervisorState::Starting);
    assert_eq!(a.load(Ordering::SeqCst), SupervisorState::Starting);
    assert!(a.transition(SupervisorState::Running, Ordering::SeqCst).is_ok());
    assert_eq!(a.load(Ordering::SeqCst), SupervisorState::Running);
    assert!(a.transition(SupervisorState::Starting, Ordering::SeqCst).is_err());
    assert_eq!(a.load(Ordering::SeqCst), SupervisorState::Running);
    a.store(SupervisorState::Stopped, Ordering::SeqCst);
    assert_eq!(a.load(Ordering::SeqCst), SupervisorState::Stopped);
}

#[test]
fn atomic_worker_state_stores_and_loads() {
    let a = AtomicWorkerState::new(WorkerState::Initializing);
    assert_eq!(a.load(Ordering::SeqCst), WorkerState::Initializing);
    a.store(WorkerState::Busy, Ordering::SeqCst);
    assert_eq!(a.load(Ordering::SeqCst), WorkerState::Busy);
}
