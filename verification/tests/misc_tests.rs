use grite::cli::ActorSource;
use grite::locks::{
    blocked_by_policy_message, issue_lock_conflict_message, issue_lock_plan, issue_lock_resource,
    issue_not_found_message, lock_held_message, lock_warning, repo_lock_resource, LockConflict,
};
use grite::resolve::{explicit_lookup, fallback_lookup, lookup_source, ActorLookup};
use grite::sync::{
    cli_sync_plan, needs_push_lock_check, pull_message, push_message, rebase_message, sync_plan,
    SyncPlan,
};
use grite::ui::{key_action, toggle_pause, Key, KeyAction, RunnerCommand, UiState};

#[test]
fn sync_plans_agree_between_cli_and_daemon() {
    for pull in [false, true] {
        for push in [false, true] {
            assert_eq!(cli_sync_plan(pull, push), sync_plan(pull, push));
        }
    }
    assert_eq!(sync_plan(true, false), SyncPlan::PullOnly);
    assert_eq!(sync_plan(false, true), SyncPlan::PushOnly);
    assert_eq!(sync_plan(false, false), SyncPlan::Full);
    assert_eq!(sync_plan(true, true), SyncPlan::Full);
    assert!(needs_push_lock_check(false, true));
    assert!(!needs_push_lock_check(true, false));
}

#[test]
fn sync_messages() {
    assert_eq!(pull_message(3, "origin"), "Pulled 3 events from origin");
    assert_eq!(pull_message(0, "origin"), "Already up to date with origin");
    assert_eq!(push_message(true, "origin", "m"), "Pushed to origin");
    assert_eq!(push_message(false, "origin", "rejected"), "Push failed: rejected");
    assert_eq!(rebase_message(2), "Conflict resolved: rebased 2 local events on top of remote");
}

#[test]
fn lock_texts() {
    assert_eq!(issue_lock_resource("abcd"), "issue:abcd");
    assert_eq!(repo_lock_resource(), "repo:global");
    let a = LockConflict { resource: "issue:1".to_string(), owner: "alice".to_string(), remaining_ms: 61_500 };
    let b = LockConflict { resource: "repo:global".to_string(), owner: "bob".to_string(), remaining_ms: 999 };
    assert_eq!(lock_warning(&a), "Warning: issue:1 is locked by alice (expires in 61s)");
    assert_eq!(
        blocked_by_policy_message(&vec![a, b]),
        "Blocked by lock policy: issue:1 (owned by alice, expires in 61s), repo:global (owned by bob, expires in 0s)"
    );
    assert_eq!(blocked_by_policy_message(&vec![]), "Blocked by lock policy: ");
    assert_eq!(lock_held_message("r", "o", 5000), "Lock on r is held by o (expires in 5s)");
    assert_eq!(
        issue_lock_conflict_message("issue:ab", "carol", 30_000),
        "Cannot acquire lock on issue:ab - held by carol (expires in 30s)"
    );
    let plan = issue_lock_plan("ab", true);
    assert_eq!(plan.resource, "issue:ab");
    assert!(plan.acquire);
    assert!(!issue_lock_plan("ab", false).acquire);
    assert_eq!(issue_not_found_message("abc"), "Issue abc not found");
}

#[test]
fn actor_lookup_precedence() {
    assert_eq!(explicit_lookup(true, true, true), Some(ActorLookup::DataDirFlag));
    assert_eq!(explicit_lookup(false, true, true), Some(ActorLookup::HomeEnv));
    assert_eq!(explicit_lookup(false, false, true), Some(ActorLookup::ActorFlag));
    assert_eq!(explicit_lookup(false, false, false), None);
    assert_eq!(fallback_lookup(true, true), ActorLookup::RepoDefault);
    assert_eq!(fallback_lookup(false, true), ActorLookup::FirstListed);
    assert_eq!(fallback_lookup(false, false), ActorLookup::CreateNew);
    assert_eq!(lookup_source(ActorLookup::HomeEnv).as_str(), "env");
    assert_eq!(lookup_source(ActorLookup::ActorFlag).as_str(), "flag");
    assert_eq!(lookup_source(ActorLookup::RepoDefault).as_str(), "repo_default");
    assert_eq!(lookup_source(ActorLookup::CreateNew).as_str(), "auto");
    assert_eq!(ActorSource::DataDir.as_str(), "env");
}

#[test]
fn dashboard_keys() {
    assert_eq!(key_action(true, Key::Char('c')), KeyAction::Quit);
    assert_eq!(key_action(false, Key::Char('c')), KeyAction::Ignore);
    assert_eq!(key_action(false, Key::Char('q')), KeyAction::Quit);
    assert_eq!(key_action(false, Key::Esc), KeyAction::Quit);
    assert_eq!(key_action(false, Key::Char('p')), KeyAction::TogglePause);
    assert_eq!(key_action(false, Key::Char('r')), KeyAction::Reset);
    assert_eq!(key_action(false, Key::Char('s')), KeyAction::SaveReport);
    assert_eq!(key_action(true, Key::Up), KeyAction::Scroll(-1));
    assert_eq!(key_action(false, Key::Down), KeyAction::Scroll(1));
    assert_eq!(key_action(false, Key::Other), KeyAction::Ignore);
    assert_eq!(toggle_pause(false), (true, RunnerCommand::Pause));
    assert_eq!(toggle_pause(true), (false, RunnerCommand::Resume));
}

#[test]
fn agent_table_scrolling() {
    let mut ui = UiState::default();
    assert_eq!(ui.agent_scroll, 0);
    ui.scroll_agents(-1, 5);
    assert_eq!(ui.agent_scroll, 0);
    for _ in 0..10 {
        ui.scroll_agents(1, 5);
    }
    assert_eq!(ui.agent_scroll, 4);
    ui.scroll_agents(-1, 5);
    assert_eq!(ui.agent_scroll, 3);
    ui.scroll_agents(1, 0);
    assert_eq!(ui.agent_scroll, 0);
}
