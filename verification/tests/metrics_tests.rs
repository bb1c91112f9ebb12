use grite::metrics::{
    AgentMetrics, AgentStatus, EventLog, LatencyPercentiles, MetricsCollector, OpType,
    ThroughputHistory,
};

#[test]
fn op_type_names() {
    assert_eq!(OpType::CreateIssue.as_str(), "create_issue");
    assert_eq!(OpType::AddComment.as_str(), "add_comment");
    assert_eq!(OpType::AddLabel.as_str(), "add_label");
    assert_eq!(OpType::RemoveLabel.as_str(), "remove_label");
    assert_eq!(OpType::UpdateIssue.as_str(), "update_issue");
    assert_eq!(OpType::CloseIssue.as_str(), "close_issue");
}

#[test]
fn agent_status_names() {
    assert_eq!(AgentStatus::Pending.as_str(), "Pending");
    assert_eq!(AgentStatus::Running.as_str(), "Running");
    assert_eq!(AgentStatus::Paused.as_str(), "Paused");
    assert_eq!(AgentStatus::Complete.as_str(), "Complete");
    assert_eq!(AgentStatus::Failed.as_str(), "Failed");
    assert_eq!(AgentStatus::default(), AgentStatus::Pending);
}

#[test]
fn fresh_agent_metrics() {
    let m = AgentMetrics::pending(3);
    assert_eq!(m.agent_id, 3);
    assert_eq!(m.actor_id_short, "");
    assert_eq!(m.status, AgentStatus::Pending);
    assert_eq!((m.events_total, m.events_success, m.events_failed, m.contentions), (0, 0, 0, 0));
    let p = LatencyPercentiles::default();
    assert_eq!((p.p50_us, p.p95_us, p.p99_us, p.max_us), (0, 0, 0, 0));
}

#[test]
fn event_log_keeps_newest_entries() {
    let mut log = EventLog::new(3);
    assert!(log.recent().is_empty());
    for i in 0..5 {
        log.add(format!("event {}", i));
    }
    assert_eq!(log.recent(), vec!["event 2", "event 3", "event 4"]);
}

#[test]
fn event_log_below_capacity_keeps_all_in_order() {
    let mut log = EventLog::new(10);
    log.add("a".to_string());
    log.add("b".to_string());
    assert_eq!(log.recent(), vec!["a", "b"]);
}

#[test]
fn event_log_of_zero_capacity_keeps_nothing() {
    let mut log = EventLog::new(0);
    log.add("x".to_string());
    assert!(log.recent().is_empty());
}

#[test]
fn throughput_history_rates_and_peak() {
    let mut h = ThroughputHistory::new(3);
    assert_eq!(h.current_rate(), 0);
    assert_eq!(h.peak_rate(), 0);
    h.add_sample(10);
    h.add_sample(15);
    h.add_sample(40);
    assert_eq!(h.samples(), vec![10, 5, 25]);
    assert_eq!(h.current_rate(), 25);
    assert_eq!(h.peak_rate(), 25);
    h.add_sample(41);
    assert_eq!(h.samples(), vec![5, 25, 1]);
    assert_eq!(h.current_rate(), 1);
    assert_eq!(h.peak_rate(), 25);
}

#[test]
fn collector_counts_operations_by_kind() {
    let mut m = MetricsCollector::new(2);
    m.record_operation(OpType::CreateIssue, true);
    m.record_operation(OpType::AddComment, true);
    m.record_operation(OpType::AddComment, false);
    assert_eq!(m.total_operations, 3);
    assert_eq!(m.successful_operations, 2);
    assert_eq!(m.failed_operations, 1);
    assert_eq!(m.issues_created, 1);
    assert_eq!(m.comments_added, 1);
    m.record_wal_contention();
    m.record_crdt_conflict();
    m.record_db_lock_wait();
    assert_eq!((m.wal_contentions, m.crdt_conflicts, m.db_lock_waits), (1, 1, 1));
}

#[test]
fn collector_agent_updates() {
    let mut m = MetricsCollector::new(2);
    m.update_agent_status(1, AgentStatus::Running);
    m.update_agent_metrics(1, true, false);
    m.update_agent_metrics(1, false, true);
    m.set_agent_actor_id(0, "0123456789abcdef");
    m.set_agent_actor_id(1, "abc");
    m.update_agent_status(7, AgentStatus::Failed);
    let agents = m.agent_metrics();
    assert_eq!(agents.len(), 2);
    assert_eq!(agents[0].actor_id_short, "01234567...");
    assert_eq!(agents[1].actor_id_short, "abc");
    assert_eq!(agents[1].status, AgentStatus::Running);
    assert_eq!(agents[1].events_total, 2);
    assert_eq!(agents[1].events_success, 1);
    assert_eq!(agents[1].events_failed, 1);
    assert_eq!(agents[1].contentions, 1);
    assert_eq!(agents[0].status, AgentStatus::Pending);
}

#[test]
fn collector_throughput_samples_the_running_total() {
    let mut m = MetricsCollector::new(1);
    for _ in 0..4 {
        m.record_operation(OpType::AddLabel, true);
    }
    m.update_throughput_sample();
    m.record_operation(OpType::CloseIssue, true);
    m.update_throughput_sample();
    assert_eq!(m.throughput_samples(), vec![4, 1]);
    assert_eq!(m.current_throughput(), 1);
    assert_eq!(m.peak_throughput(), 4);
}

#[test]
fn collector_event_log_capacity_is_one_hundred() {
    let mut m = MetricsCollector::new(0);
    for i in 0..105 {
        m.log_event(format!("{}", i));
    }
    let events = m.recent_events();
    assert_eq!(events.len(), 100);
    assert_eq!(events[0], "5");
    assert_eq!(events[99], "104");
}

#[test]
fn collector_counters_balance_over_a_series() {
    let mut m = MetricsCollector::new(3);
    let series = [
        (OpType::CreateIssue, true),
        (OpType::AddLabel, true),
        (OpType::RemoveLabel, false),
        (OpType::UpdateIssue, true),
        (OpType::CloseIssue, false),
        (OpType::CloseIssue, true),
        (OpType::AddComment, true),
    ];
    for (op, ok) in series {
        m.record_operation(op, ok);
    }
    assert_eq!(m.total_operations, 7);
    assert_eq!(m.total_operations, m.successful_operations + m.failed_operations);
    assert_eq!(m.failed_operations, 2);
    assert_eq!(
        m.successful_operations,
        m.issues_created + m.comments_added + m.labels_added + m.labels_removed
            + m.issues_updated + m.issues_closed
    );
    assert_eq!(m.labels_removed, 0);
    assert_eq!(m.issues_closed, 1);
}

#[test]
fn snapshot_copies_the_whole_state() {
    let mut m = MetricsCollector::new(2);
    m.record_operation(OpType::CreateIssue, true);
    m.record_operation(OpType::AddLabel, false);
    m.record_wal_contention();
    m.log_event("agent 0 started".to_string());
    m.update_throughput_sample();
    m.record_operation(OpType::CloseIssue, true);
    m.update_throughput_sample();
    assert_eq!(m.sampled_total(), 3);
    let s = m.snapshot();
    assert_eq!((s.total_operations, s.successful_operations, s.failed_operations), (3, 2, 1));
    assert_eq!((s.issues_created, s.issues_closed, s.labels_added), (1, 1, 0));
    assert_eq!(s.wal_contentions, 1);
    assert_eq!(s.throughput_history, vec![2, 1]);
    assert_eq!((s.current_throughput, s.peak_throughput), (1, 2));
    assert_eq!(s.agent_metrics.len(), 2);
    assert_eq!(s.event_log, vec!["agent 0 started".to_string()]);
}
