use grite::export::{count_id_lines, parse_since, ExportSince, SinceError};
use grite::setup::{agents_md_message, agents_md_update, init_action, init_message, AgentsMdAction};

const SECTION: &str = "## Grite\n\nUse grite.\n";

#[test]
fn agents_md_actions_have_names() {
    assert_eq!(AgentsMdAction::Created.as_str(), "created");
    assert_eq!(AgentsMdAction::Updated.as_str(), "updated");
    assert_eq!(AgentsMdAction::Skipped.as_str(), "skipped");
    assert_eq!(AgentsMdAction::Disabled.as_str(), "disabled");
}

#[test]
fn agents_md_created_when_missing() {
    let (a, c) = agents_md_update(None, SECTION);
    assert_eq!(a, AgentsMdAction::Created);
    assert_eq!(c.as_deref(), Some(SECTION));
}

#[test]
fn agents_md_appended_with_blank_line() {
    let (a, c) = agents_md_update(Some("# Repo\n"), SECTION);
    assert_eq!(a, AgentsMdAction::Updated);
    assert_eq!(c.unwrap(), format!("# Repo\n\n{}", SECTION));
    let (_, c) = agents_md_update(Some("# Repo"), SECTION);
    assert_eq!(c.unwrap(), format!("# Repo\n\n{}", SECTION));
    let (_, c) = agents_md_update(Some(""), SECTION);
    assert_eq!(c.unwrap(), format!("\n\n{}", SECTION));
}

#[test]
fn agents_md_update_is_idempotent() {
    let (_, first) = agents_md_update(Some("# Repo\n"), SECTION);
    let (a, second) = agents_md_update(Some(&first.unwrap()), SECTION);
    assert_eq!(a, AgentsMdAction::Skipped);
    assert!(second.is_none());
}

#[test]
fn init_reports() {
    assert_eq!(init_action(true), "created");
    assert_eq!(init_action(false), "existing");
    assert_eq!(init_message(true, "0123456789abcdef"), "Initialized grite with actor 01234567");
    assert_eq!(init_message(false, "0123456789abcdef"), "Already initialized with actor 01234567");
    assert_eq!(agents_md_message(AgentsMdAction::Created), Some("Created AGENTS.md with grite instructions"));
    assert_eq!(agents_md_message(AgentsMdAction::Updated), Some("Updated AGENTS.md with grite section"));
    assert_eq!(agents_md_message(AgentsMdAction::Skipped), Some("AGENTS.md already contains grite section"));
    assert_eq!(agents_md_message(AgentsMdAction::Disabled), None);
}

#[test]
fn since_values() {
    match parse_since("1700000000000").unwrap() {
        ExportSince::Timestamp(t) => assert_eq!(t, 1_700_000_000_000),
        other => panic!("{:?}", other),
    }
    let hex = "0f".repeat(32);
    match parse_since(&hex).unwrap() {
        ExportSince::EventId(v) => assert_eq!(v, vec![0x0f; 32]),
        other => panic!("{:?}", other),
    }
    match parse_since("yesterday") {
        Err(SinceError::InvalidValue(m)) => assert_eq!(m, "Invalid since value: yesterday"),
        other => panic!("{:?}", other),
    }
    let bad_hex = format!("{}zz", "0".repeat(62));
    assert!(matches!(parse_since(&bad_hex), Err(SinceError::EventId(_))));
}

#[test]
fn markdown_event_count() {
    let md = "# Export\n\n**ID:** 1\nbody **ID:** not\n**ID:** 2\r\n**ID:**";
    assert_eq!(count_id_lines(md), 3);
    assert_eq!(count_id_lines(md), md.lines().filter(|l| l.starts_with("**ID:**")).count());
    assert_eq!(count_id_lines(""), 0);
}
