use grite::bench::{
    after_operation, AgentProgress, AgentStep, BenchError, BenchmarkScenario, FailureKind,
    OperationMix, OperationOutcome, SimulatedAgent, MAX_RETRIES,
};
use grite::metrics::OpType;

#[test]
fn operation_mix_thresholds() {
    let mix = OperationMix::default();
    assert_eq!(mix.select_at(0), OpType::CreateIssue);
    assert_eq!(mix.select_at(399), OpType::CreateIssue);
    assert_eq!(mix.select_at(400), OpType::AddComment);
    assert_eq!(mix.select_at(699), OpType::AddComment);
    assert_eq!(mix.select_at(700), OpType::AddLabel);
    assert_eq!(mix.select_at(800), OpType::RemoveLabel);
    assert_eq!(mix.select_at(850), OpType::UpdateIssue);
    assert_eq!(mix.select_at(900), OpType::CloseIssue);
    assert_eq!(mix.select_at(999), OpType::CloseIssue);
    let only_comments = OperationMix {
        create_issue: 0,
        add_comment: 1000,
        add_label: 0,
        remove_label: 0,
        update_issue: 0,
        close_issue: 0,
    };
    for _ in 0..50 {
        assert_eq!(only_comments.select(), OpType::AddComment);
    }
    assert_eq!(BenchmarkScenario::ramp(1, 1).operation_mix, mix);
}

#[test]
fn scenarios_by_name() {
    let s = BenchmarkScenario::from_name("BURST", 4, 10).unwrap();
    assert_eq!(s.name, "Burst");
    assert_eq!(s.think_time_ms, (0, 0));
    assert_eq!(s.total_operations(), 40);
    let s = BenchmarkScenario::from_name("sustained", 2, 3).unwrap();
    assert_eq!(s.name, "Sustained");
    assert_eq!(s.think_time_ms, (10, 100));
    let s = BenchmarkScenario::from_name("Ramp", 1, 1).unwrap();
    assert_eq!(s.description, "Gradually increase load");
    assert_eq!(s.think_time_ms, (5, 50));
    assert!(BenchmarkScenario::from_name("chaos", 1, 1).is_none());
    let d = BenchmarkScenario::default();
    assert_eq!((d.agent_count, d.operations_per_agent, d.batch_size), (8, 100, 1));
}

#[test]
fn contention_is_retried_with_exponential_backoff() {
    let contended = OperationOutcome::Failed { contention: true, no_known_issues: false };
    let mut p = AgentProgress { completed: 7, retries: 0 };
    let mut delays = vec![];
    for _ in 0..MAX_RETRIES {
        let (next, step) = after_operation(p, contended);
        match step {
            AgentStep::Backoff { delay_ms } => delays.push(delay_ms),
            other => panic!("{:?}", other),
        }
        p = next;
    }
    assert_eq!(delays, vec![20, 40, 80, 160, 320]);
    let (p, step) = after_operation(p, contended);
    assert_eq!(step, AgentStep::Proceed { gave_up: true });
    assert_eq!(p, AgentProgress { completed: 7, retries: 0 });
}

#[test]
fn success_and_other_failures() {
    let p = AgentProgress { completed: 1, retries: 2 };
    let (q, step) = after_operation(p, OperationOutcome::Succeeded);
    assert_eq!(q, AgentProgress { completed: 2, retries: 0 });
    assert_eq!(step, AgentStep::Proceed { gave_up: false });
    let (q, _) = after_operation(p, OperationOutcome::Failed { contention: false, no_known_issues: true });
    assert_eq!(q, AgentProgress { completed: 2, retries: 0 });
    let (q, _) = after_operation(p, OperationOutcome::Failed { contention: false, no_known_issues: false });
    assert_eq!(q, AgentProgress { completed: 1, retries: 0 });
}

#[test]
fn simulated_agent_basics() {
    let scenario = BenchmarkScenario::sustained(2, 5);
    let mut agent = SimulatedAgent::new(3, &scenario);
    assert_eq!(agent.actor_id_hex.len(), 32);
    let expected: String = agent.actor_id.iter().map(|b| format!("{:02x}", b)).collect();
    assert_eq!(agent.actor_id_hex, expected);
    match agent.get_random_issue() {
        Err(BenchError::Bench(m)) => assert_eq!(m, "No known issues, will create one"),
        other => panic!("{:?}", other),
    }
    agent.record_created_issue([9; 16]);
    assert_eq!(agent.get_random_issue().unwrap(), [9; 16]);
    assert!(agent.random_title().starts_with("[Agent #3] "));
    assert!(agent.random_comment().starts_with("[Agent #3] "));
    let body = agent.random_body();
    assert!(body.starts_with("Task created by Agent #3 at "));
    assert!(body.ends_with(" UTC.\n\nThis is a simulated task for benchmarking purposes."));
    let label = agent.random_label();
    assert!(["bug", "feature", "enhancement", "documentation", "performance", "security", "testing", "refactor"]
        .contains(&label.as_str()));
    for _ in 0..20 {
        let t = agent.random_think_time().unwrap();
        assert!((10..=100).contains(&t));
    }
    let burst = SimulatedAgent::new(0, &BenchmarkScenario::burst(1, 1));
    assert_eq!(burst.random_think_time(), None);
}

#[test]
fn contention_errors() {
    let agent = SimulatedAgent::new(0, &BenchmarkScenario::default());
    assert!(agent.is_contention_error(&FailureKind::DbBusy));
    assert!(agent.is_contention_error(&FailureKind::Git { locked: true, message: String::new() }));
    assert!(agent.is_contention_error(&FailureKind::Git {
        locked: false,
        message: "failed to update reference".to_string()
    }));
    assert!(agent.is_contention_error(&FailureKind::Git { locked: false, message: "merge conflict".to_string() }));
    assert!(!agent.is_contention_error(&FailureKind::Git { locked: false, message: "other".to_string() }));
    assert!(!agent.is_contention_error(&FailureKind::Other));
}
