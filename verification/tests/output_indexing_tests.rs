use grite::indexing::{content_hash, files_to_index, index_decision, listed_paths, IndexDecision};
use grite::output::{
    count_open, created_issue_line, format_issue_table, issue_table, state_color, CellColor, TableRow, error_has_details, prints_human, success_output, SuccessOutput, error_report_lines, format_local_date,
    issue_list_line, issue_table_rows, rebuilt_line, short_issue_id, state_style, strip_markdown, table_footer,
    IssueRow, StateStyle,
};

#[test]
fn daemon_reply_lines() {
    assert_eq!(issue_list_line("0123456789abcdef", "open", "Fix it"), "01234567 [open] Fix it");
    assert_eq!(issue_list_line("?", "?", "?"), "? [?] ?");
    assert_eq!(created_issue_line("abcd"), "Created issue abcd");
    assert_eq!(rebuilt_line(10, 3), "Rebuilt: 10 events, 3 issues");
}

#[test]
fn error_reports() {
    assert_eq!(error_report_lines("boom", &vec![]), vec!["error: boom"]);
    assert_eq!(
        error_report_lines("boom", &vec!["Run 'grite init'".to_string(), "retry".to_string()]),
        vec!["error: boom", "", "Suggestions:", "  - Run 'grite init'", "  - retry"]
    );
}

fn row(state: &str) -> IssueRow {
    IssueRow { id: "0123456789".to_string(), state: state.to_string(), title: "t".to_string(), created_ts: 0 }
}

#[test]
fn table_footer_counts() {
    let rows = vec![row("open"), row("closed"), row("open")];
    assert_eq!(count_open(&rows), 2);
    assert_eq!(table_footer(&rows), "\n3 issues total (2 open, 1 closed)");
    assert_eq!(table_footer(&vec![]), "");
}

#[test]
fn row_cells() {
    assert_eq!(state_style("open"), StateStyle::Open);
    assert_eq!(state_style("closed"), StateStyle::Other);
    assert_eq!(short_issue_id("0123456789abcdef"), "01234567");
    assert_eq!(short_issue_id("abc"), "abc");
}

#[test]
fn dates_fall_back_to_the_timestamp() {
    assert_eq!(format_local_date(u64::MAX), u64::MAX.to_string());
    assert_ne!(format_local_date(1_700_000_000_000), "1700000000000");
}

#[test]
fn dates_reach_the_last_representable_second() {
    assert_ne!(format_local_date(8_210_266_876_799_999), "8210266876799999");
    assert_eq!(format_local_date(8_210_266_876_800_000), "8210266876800000");
}

#[test]
fn markdown_is_stripped() {
    assert_eq!(strip_markdown("See [docs](http://x.y) now").unwrap(), "See docs now");
    assert_eq!(strip_markdown("**bold** and `code`").unwrap(), "bold and code");
    assert_eq!(strip_markdown("## Heading").unwrap(), "Heading");
    assert_eq!(strip_markdown("an *italic* word").unwrap(), "an italic word");
    assert_eq!(strip_markdown("a *b* c").unwrap(), "a b c");
    assert_eq!(strip_markdown("*lead* text").unwrap(), "lead text");
    assert_eq!(strip_markdown("plain").unwrap(), "plain");
}

#[test]
fn listed_paths_skip_blank_lines() {
    assert_eq!(listed_paths("a.rs\nsrc/b.rs\r\n\nc.py"), vec!["a.rs", "src/b.rs", "c.py"]);
    assert_eq!(listed_paths("a\n"), vec!["a"]);
    assert!(listed_paths("").is_empty());
    let s = "x\r\ny\n\n z \r";
    let expected: Vec<String> = s.lines().filter(|l| !l.is_empty()).map(|l| l.to_string()).collect();
    assert_eq!(listed_paths(s), expected);
}

#[test]
fn glob_filter() {
    assert_eq!(files_to_index("a.rs\nb.py\nsrc/c.rs\n", Some("*.rs")).unwrap(), vec!["a.rs", "src/c.rs"]);
    assert_eq!(files_to_index("a.rs\nb.py\n", None).unwrap(), vec!["a.rs", "b.py"]);
    let err = files_to_index("a.rs\n", Some("[")).unwrap_err();
    assert!(err.starts_with("Invalid glob pattern: Pattern syntax error near position "), "{}", err);
}

#[test]
fn content_hash_is_sha256() {
    let h = content_hash("abc");
    let text: String = h.iter().map(|b| format!("{:02x}", b)).collect();
    assert_eq!(text, "ba7816bf8f01cfea414140de5dae2223b00361a396177a9cb410ff61f20015ad");
    assert_eq!(content_hash("").len(), 32);
}

#[test]
fn index_decisions() {
    let h = content_hash("x");
    let other = content_hash("y");
    assert_eq!(index_decision(false, true, None, &h, true), IndexDecision::Skip);
    assert_eq!(index_decision(true, false, Some(&h), &h, true), IndexDecision::Skip);
    assert_eq!(index_decision(true, true, Some(&h), &h, true), IndexDecision::Index);
    assert_eq!(index_decision(true, false, Some(&other), &h, true), IndexDecision::Index);
    assert_eq!(index_decision(true, false, None, &h, false), IndexDecision::Skip);
}

#[test]
fn issue_table_row_cells() {
    let issues = vec![
        IssueRow { id: "0123456789abcdef".to_string(), state: "open".to_string(), title: "**Fix** it".to_string(), created_ts: u64::MAX },
        IssueRow { id: "ab".to_string(), state: "closed".to_string(), title: "Done".to_string(), created_ts: 0 },
    ];
    let rows = issue_table_rows(&issues).unwrap();
    assert_eq!(rows.len(), 2);
    assert_eq!(rows[0].id, "01234567");
    assert_eq!(rows[0].style, StateStyle::Open);
    assert_eq!(rows[0].title, "Fix it");
    assert_eq!(rows[0].created, u64::MAX.to_string());
    assert_eq!(rows[1].id, "ab");
    assert_eq!(rows[1].state, "closed");
    assert_eq!(rows[1].style, StateStyle::Other);
}

#[test]
fn output_modes() {
    assert_eq!(success_output(true, true), SuccessOutput::JsonEnvelope);
    assert_eq!(success_output(false, false), SuccessOutput::PrettyData);
    assert_eq!(success_output(false, true), SuccessOutput::Silent);
    assert!(prints_human(false, false));
    assert!(!prints_human(true, false));
    assert!(!prints_human(false, true));
    assert!(!error_has_details(0));
    assert!(error_has_details(1));
}

#[test]
fn issue_table_draws_rows_and_totals() {
    let issues = vec![
        IssueRow { id: "0123456789abcdef".to_string(), state: "open".to_string(), title: "**Fix** it".to_string(), created_ts: u64::MAX },
        IssueRow { id: "fedcba98".to_string(), state: "closed".to_string(), title: "Done".to_string(), created_ts: u64::MAX },
    ];
    let text = format_issue_table(&issues).unwrap();
    for expected in ["ID", "Status", "Created", "Title", "01234567", "Fix it", "fedcba98", "Done", "closed"] {
        assert!(text.contains(expected), "missing {expected} in {text}");
    }
    assert!(!text.contains("0123456789"));
    assert!(text.ends_with("\n2 issues total (1 open, 1 closed)"));
    let empty = format_issue_table(&vec![]).unwrap();
    assert!(empty.contains("Title"));
    assert!(!empty.contains("issues total"));
}

#[test]
fn state_colours() {
    assert_eq!(state_color(StateStyle::Open), CellColor::Blue);
    assert_eq!(state_color(StateStyle::Other), CellColor::DarkYellow);
}

#[test]
fn issue_table_holds_header_and_rows_in_order() {
    let rows = vec![
        TableRow {
            id: "01234567".to_string(),
            state: "open".to_string(),
            style: StateStyle::Open,
            created: "Jan 1, 70 12:00 am".to_string(),
            title: "Fix it".to_string(),
        },
        TableRow {
            id: "fedcba98".to_string(),
            state: "closed".to_string(),
            style: StateStyle::Other,
            created: "Jan 2, 70 12:00 am".to_string(),
            title: "Done".to_string(),
        },
    ];
    let t = issue_table(&rows);
    let header: Vec<String> = t.header().unwrap().cell_iter().map(|c| c.content()).collect();
    assert_eq!(header, vec!["ID", "Status", "Created", "Title"]);
    let cells: Vec<Vec<String>> =
        t.row_iter().map(|r| r.cell_iter().map(|c| c.content()).collect()).collect();
    assert_eq!(
        cells,
        vec![
            vec!["01234567", "open", "Jan 1, 70 12:00 am", "Fix it"],
            vec!["fedcba98", "closed", "Jan 2, 70 12:00 am", "Done"],
        ]
    );
}
