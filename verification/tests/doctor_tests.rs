use grite::doctor::{
    check_actor_config, check_git_repo, check_legacy_actor_sleds, check_rebuild_threshold,
    check_store, check_wal_ref, contains_id, count_unmerged, doctor_verdict, plan_legacy_fix,
    record_legacy_fix, removable_legacy_path, status_icon, store_held_by_daemon, unmerged_indices,
    CheckResult, LegacyProbe, RebuildProbe, StoreProbe, WalProbe,
};
use grite::router::ExecutionMode;

fn parts(c: &CheckResult) -> (&str, &str, &str, Vec<&str>) {
    (&c.id, &c.status, &c.message, c.plan.iter().map(|s| s.as_str()).collect())
}

#[test]
fn check_result_constructors() {
    let ok = CheckResult::ok("x", "fine");
    assert_eq!(parts(&ok), ("x", "ok", "fine", vec![]));
    let w = CheckResult::warn("y", "hmm", vec!["a", "b"]);
    assert_eq!(parts(&w), ("y", "warn", "hmm", vec!["a", "b"]));
    let e = CheckResult::error("z", "bad", vec!["fix"]);
    assert_eq!(parts(&e), ("z", "error", "bad", vec!["fix"]));
}

#[test]
fn git_repo_check() {
    assert_eq!(parts(&check_git_repo(Some(true))), ("git_repo", "ok", "Git repository is valid", vec![]));
    assert_eq!(
        parts(&check_git_repo(Some(false))),
        ("git_repo", "error", "Not a git repository", vec!["Run 'git init'"])
    );
    assert_eq!(
        parts(&check_git_repo(None)),
        (
            "git_repo",
            "error",
            "Cannot resolve repository context",
            vec!["Ensure you are in a git repository", "Run 'grite init'"]
        )
    );
}

#[test]
fn wal_ref_check() {
    assert_eq!(parts(&check_wal_ref(&WalProbe::HeadPresent)).2, "WAL ref exists and is readable");
    assert_eq!(parts(&check_wal_ref(&WalProbe::HeadAbsent)).2, "WAL ref not yet created (empty)");
    assert_eq!(
        parts(&check_wal_ref(&WalProbe::HeadFailed("boom".to_string()))),
        ("wal_ref", "error", "WAL ref is corrupted: boom", vec!["Run 'grite doctor --fix' to rebuild"])
    );
    assert_eq!(
        parts(&check_wal_ref(&WalProbe::OpenFailed("nope".to_string()))),
        ("wal_ref", "error", "Cannot open WAL manager: nope", vec!["Check git repository integrity"])
    );
    assert_eq!(
        parts(&check_wal_ref(&WalProbe::NoContext)),
        ("wal_ref", "warn", "Cannot check WAL - no context", vec!["Fix git_repo first"])
    );
}

#[test]
fn actor_config_check() {
    assert_eq!(
        parts(&check_actor_config(Some("0123456789abcdef0123456789abcdef"))),
        ("actor_config", "ok", "Actor configured: 01234567", vec![])
    );
    assert_eq!(parts(&check_actor_config(Some("abc"))).2, "Actor configured: abc");
    assert_eq!(
        parts(&check_actor_config(Some(""))),
        ("actor_config", "warn", "No actor configured", vec!["Run 'grite actor init'"])
    );
    assert_eq!(
        parts(&check_actor_config(None)),
        ("actor_config", "warn", "Cannot check actor config - no context", vec!["Run 'grite init' first"])
    );
}

#[test]
fn store_check() {
    let (c, rebuild) = check_store(&StoreProbe::Checked { healthy: true, events_checked: 12, corrupt: 0 });
    assert_eq!(parts(&c), ("store_integrity", "ok", "12 events verified", vec![]));
    assert!(!rebuild);
    let (c, rebuild) = check_store(&StoreProbe::Checked { healthy: false, events_checked: 12, corrupt: 2 });
    assert_eq!(
        parts(&c),
        (
            "store_integrity",
            "error",
            "2 corrupt events found out of 12",
            vec!["Run 'grite doctor --fix' to rebuild from WAL"]
        )
    );
    assert!(rebuild);
    let (c, rebuild) = check_store(&StoreProbe::HeldByDaemon);
    assert_eq!(parts(&c).2, "Store held by running daemon");
    assert!(!rebuild);
    let (c, rebuild) = check_store(&StoreProbe::OpenFailed("locked".to_string()));
    assert_eq!(parts(&c).2, "Cannot open store: locked");
    assert!(rebuild);
    let (c, rebuild) = check_store(&StoreProbe::CheckFailed("io".to_string()));
    assert_eq!(parts(&c).2, "Integrity check failed: io");
    assert!(rebuild);
    let (c, rebuild) = check_store(&StoreProbe::NoContext);
    assert_eq!(parts(&c).1, "warn");
    assert!(!rebuild);
}

#[test]
fn rebuild_threshold_check() {
    let c = check_rebuild_threshold(&RebuildProbe::Stats {
        rebuild_recommended: true,
        events_since_rebuild: 5000,
        days_since_rebuild: Some(9),
    });
    assert_eq!(
        parts(&c),
        (
            "rebuild_threshold",
            "warn",
            "5000 events since last rebuild (9 days ago)",
            vec!["Run 'grite rebuild' to optimize performance"]
        )
    );
    let c = check_rebuild_threshold(&RebuildProbe::Stats {
        rebuild_recommended: true,
        events_since_rebuild: 5000,
        days_since_rebuild: None,
    });
    assert_eq!(parts(&c).2, "5000 events since last rebuild");
    let c = check_rebuild_threshold(&RebuildProbe::Stats {
        rebuild_recommended: false,
        events_since_rebuild: 3,
        days_since_rebuild: None,
    });
    assert_eq!(parts(&c), ("rebuild_threshold", "ok", "3 events since last rebuild", vec![]));
    let c = check_rebuild_threshold(&RebuildProbe::Stats {
        rebuild_recommended: false,
        events_since_rebuild: 0,
        days_since_rebuild: Some(1),
    });
    assert_eq!(parts(&c).2, "No events since last rebuild");
    assert_eq!(
        parts(&check_rebuild_threshold(&RebuildProbe::StatsFailed("x".to_string()))),
        ("rebuild_threshold", "warn", "Cannot check rebuild stats: x", vec![])
    );
    assert_eq!(
        parts(&check_rebuild_threshold(&RebuildProbe::HeldByDaemon)).2,
        "Rebuild threshold managed by running daemon"
    );
}

#[test]
fn daemon_holds_store_when_it_answers_or_blocks() {
    assert!(store_held_by_daemon(Some(ExecutionMode::Daemon)));
    assert!(store_held_by_daemon(Some(ExecutionMode::Blocked)));
    assert!(!store_held_by_daemon(Some(ExecutionMode::Local)));
    assert!(!store_held_by_daemon(None));
}

fn id(b: u8) -> Vec<u8> {
    vec![b; 32]
}

#[test]
fn unmerged_events_are_found_in_order() {
    let known = vec![id(1), id(2)];
    assert!(contains_id(&known, &id(2)));
    assert!(!contains_id(&known, &id(3)));
    let events = vec![id(3), id(1), id(4), id(2)];
    assert_eq!(unmerged_indices(&known, &events), vec![0, 2]);
    let sleds = vec![events.clone(), vec![id(1)], vec![id(5)]];
    assert_eq!(count_unmerged(&known, &sleds), Some(3));
}

#[test]
fn legacy_fix_plan_cleans_every_opened_store() {
    let known = vec![id(1)];
    let sleds = vec![vec![id(1)], vec![id(2), id(1)], vec![]];
    let plan = plan_legacy_fix(&known, &sleds).unwrap();
    assert_eq!(plan.merged, 1);
    assert_eq!(plan.inserts, vec![vec![], vec![0], vec![]]);
    assert_eq!(plan.clean, vec![true, true, true]);
}

#[test]
fn legacy_check_messages() {
    let (c, fix) = check_legacy_actor_sleds(&LegacyProbe::Scanned { accessible: 2, unmerged: 5 });
    assert_eq!(
        parts(&c),
        (
            "legacy_actor_sleds",
            "warn",
            "2 legacy actor sled(s) with 5 unmerged event(s)",
            vec!["Run 'grite doctor --fix' to merge legacy events into the shared store"]
        )
    );
    assert!(fix);
    let (c, fix) = check_legacy_actor_sleds(&LegacyProbe::Scanned { accessible: 2, unmerged: 0 });
    assert_eq!(parts(&c).2, "2 legacy actor sled(s), all events already in shared store");
    assert!(fix);
    let (c, fix) = check_legacy_actor_sleds(&LegacyProbe::Scanned { accessible: 0, unmerged: 0 });
    assert_eq!(parts(&c), ("legacy_actor_sleds", "ok", "No accessible legacy actor sleds", vec![]));
    assert!(!fix);
    let (c, fix) = check_legacy_actor_sleds(&LegacyProbe::HeldByDaemon { legacy: 3 });
    assert_eq!(
        parts(&c).2,
        "3 legacy actor sled(s) found (store held by daemon - cannot count unmerged events)"
    );
    assert!(!fix);
    let (c, _) = check_legacy_actor_sleds(&LegacyProbe::NoLegacy);
    assert_eq!(parts(&c).2, "No legacy per-actor sleds");
    let (c, _) = check_legacy_actor_sleds(&LegacyProbe::ListFailed("e".to_string()));
    assert_eq!(parts(&c).2, "Cannot list actors: e");
}

#[test]
fn only_paths_under_actor_directories_are_removed() {
    assert!(removable_legacy_path("/home/u/repo/.git/grite/actors/abc/sled"));
    assert!(!removable_legacy_path("/home/u/repo/sled"));
}

#[test]
fn recording_a_legacy_fix() {
    let mut checks = vec![
        CheckResult::ok("git_repo", "Git repository is valid"),
        CheckResult::warn("legacy_actor_sleds", "2 legacy actor sled(s)", vec!["fix"]),
    ];
    let mut applied = vec!["rebuild".to_string()];
    record_legacy_fix(&mut checks, &mut applied, 4, 2);
    assert_eq!(applied, vec!["rebuild", "merged 4 legacy event(s)", "cleaned 2 legacy sled(s)"]);
    assert_eq!(
        parts(&checks[1]),
        ("legacy_actor_sleds", "ok", "merged 4 event(s), cleaned 2 legacy sled(s)", vec![])
    );
    assert_eq!(parts(&checks[0]).0, "git_repo");

    let mut checks2 = vec![CheckResult::warn("legacy_actor_sleds", "m", vec![])];
    let mut applied2: Vec<String> = vec![];
    record_legacy_fix(&mut checks2, &mut applied2, 0, 0);
    assert!(applied2.is_empty());
    assert_eq!(parts(&checks2[0]).1, "warn");
    record_legacy_fix(&mut checks2, &mut applied2, 3, 0);
    assert_eq!(parts(&checks2[0]).2, "merged 3 legacy event(s) into shared store");
    let mut checks3 = vec![CheckResult::warn("legacy_actor_sleds", "m", vec![])];
    record_legacy_fix(&mut checks3, &mut applied2, 0, 1);
    assert_eq!(parts(&checks3[0]).2, "cleaned 1 legacy sled(s)");
}

#[test]
fn doctor_outcome() {
    let good = vec![CheckResult::ok("a", "x"), CheckResult::warn("b", "y", vec![])];
    assert!(doctor_verdict(&good, &vec![]).is_ok());
    let bad = vec![CheckResult::ok("a", "x"), CheckResult::error("b", "y", vec![])];
    assert_eq!(doctor_verdict(&bad, &vec![]), Err("Health checks failed".to_string()));
    assert!(doctor_verdict(&bad, &vec!["rebuild".to_string()]).is_ok());
}

#[test]
fn status_icons() {
    assert_eq!(status_icon("ok"), "[ok]");
    assert_eq!(status_icon("warn"), "[!!]");
    assert_eq!(status_icon("error"), "[ERR]");
    assert_eq!(status_icon("other"), "[?]");
}
