//! Plain-text rendering for terminals: issue rows, dates and Markdown
//! stripped to plain text.

use vstd::prelude::*;
use vstd::string::*;
use vstd::utf8::*;
use crate::ipc::opt_view;
use crate::text::{clipped_prefix, clipped_prefix_chars, decimal_chars, decimal_string, prefix_cut_ok, same_text};

verus! {

#[verifier::external_type_specification]
#[verifier::external_body]
pub struct ExRegex(regex::Regex);

/// A single issue row for table formatting.
pub struct IssueRow {
    pub id: String,
    pub state: String,
    pub title: String,
    pub created_ts: u64,
}

/// How a row's state cell is coloured: open issues stand out.
#[derive(Debug, Clone, Copy, PartialEq, Eq, Structural)]
pub enum StateStyle {
    Open,
    Other,
}

/// The style for a state text.
pub fn state_style(state: &str) -> (r: StateStyle)
    ensures
        r == (if state@ == "open"@ {
            StateStyle::Open
        } else {
            StateStyle::Other
        }),
{
    if same_text(state, "open") {
        StateStyle::Open
    } else {
        StateStyle::Other
    }
}

/// The id column shows at most the first eight bytes of the id.
pub fn short_issue_id(id: &str) -> (r: &str)
    requires
        id.spec_bytes().len() <= usize::MAX,
        prefix_cut_ok(id, 8),
    ensures
        r@ == clipped_prefix_chars(id@, 8),
{
    clipped_prefix(id, 8)
}

/// How many of `rows` are open.
pub open spec fn open_rows(rows: Seq<IssueRow>) -> nat
    decreases rows.len(),
{
    if rows.len() == 0 {
        0
    } else {
        open_rows(rows.drop_last()) + if rows.last().state@ == "open"@ {
            1nat
        } else {
            0nat
        }
    }
}

/// Open rows never outnumber the rows.
pub proof fn lemma_open_rows_bounded(rows: Seq<IssueRow>)
    ensures
        open_rows(rows) <= rows.len(),
    decreases rows.len(),
{
    if rows.len() > 0 {
        lemma_open_rows_bounded(rows.drop_last());
    }
}

/// The number of open issues among `rows`.
pub fn count_open(rows: &Vec<IssueRow>) -> (r: usize)
    ensures
        r == open_rows(rows@),
{
    let n = rows.len();
    let mut count: usize = 0;
    let mut i: usize = 0;
    while i < n
        invariant
            n == rows@.len(),
            i <= n,
            count == open_rows(rows@.subrange(0, i as int)),
            count <= i,
        decreases n - i,
    {
        proof {
            assert(rows@.subrange(0, i + 1).drop_last() =~= rows@.subrange(0, i as int));
        }
        if same_text(rows[i].state.as_str(), "open") {
            count = count + 1;
        }
        i = i + 1;
    }
    proof {
        assert(rows@.subrange(0, n as int) =~= rows@);
    }
    count
}

/// The line under a table of `rows`: totals of all, open and closed issues;
/// nothing for an empty table.
pub open spec fn spec_table_footer(rows: Seq<IssueRow>) -> Seq<char> {
    if rows.len() == 0 {
        Seq::empty()
    } else {
        "\n"@ + decimal_chars(rows.len()) + " issues total ("@ + decimal_chars(open_rows(rows))
            + " open, "@ + decimal_chars((rows.len() - open_rows(rows)) as nat) + " closed)"@
    }
}

/// The totals line for a table of `rows`.
pub fn table_footer(rows: &Vec<IssueRow>) -> (s: String)
    ensures
        s@ == spec_table_footer(rows@),
{
    if rows.len() == 0 {
        return String::new();
    }
    let open = count_open(rows);
    proof {
        lemma_open_rows_bounded(rows@);
    }
    let closed = rows.len() - open;
    let mut s = String::from_str("\n");
    s.append(decimal_string(rows.len() as u64).as_str());
    s.append(" issues total (");
    s.append(decimal_string(open as u64).as_str());
    s.append(" open, ");
    s.append(decimal_string(closed as u64).as_str());
    s.append(" closed)");
    s
}

/// Whether `chrono::DateTime::from_timestamp(secs, 0)` represents the instant
/// `secs` seconds after the epoch: chrono's dates run from its least year,
/// -262143, to its greatest, 262142, so the instants from
/// -262143-01-01T00:00:00 to 262142-12-31T23:59:59 UTC.
pub open spec fn chrono_represents(secs: i64) -> bool {
    -8_334_601_228_800 <= secs <= 8_210_266_876_799
}

/// The machine's local offset from UTC, in seconds, at the instant `secs`
/// seconds after the epoch (chrono's `DateTime::from_timestamp`, then
/// `with_timezone(&Local)` and the offset's `local_minus_utc`); `None` exactly
/// when chrono cannot represent the instant. The offset depends on the
/// machine's time zone, so only its range, that of chrono's `FixedOffset`, is
/// stated.
#[verifier::external_body]
fn local_offset_at(secs: i64) -> (r: Option<i32>)
    ensures
        r is Some <==> chrono_represents(secs),
        r matches Some(o) ==> -86_400 < o < 86_400,
{
    chrono::DateTime::from_timestamp(secs, 0).map(
        |dt| dt.with_timezone(&chrono::Local).offset().local_minus_utc(),
    )
}

/// What chrono prints as `%b %-e, %y %-l:%M %P` for the instant `secs`
/// seconds after the epoch seen at `offset` seconds east of UTC; `None` when
/// chrono cannot represent the instant.
pub uninterp spec fn offset_date_text(secs: i64, offset: i32) -> Option<Seq<char>>;

/// `chrono::DateTime::from_timestamp(secs, 0)` seen through
/// `FixedOffset::east_opt(offset)` and formatted as `%b %-e, %y %-l:%M %P`.
#[verifier::external_body]
fn offset_date_text_of(secs: i64, offset: i32) -> (r: Option<String>)
    requires
        -86_400 < offset < 86_400,
    ensures
        r is Some <==> chrono_represents(secs),
        opt_view(r) == offset_date_text(secs, offset),
{
    let east = chrono::FixedOffset::east_opt(offset)?;
    chrono::DateTime::from_timestamp(secs, 0).map(
        |dt| dt.with_timezone(&east).format("%b %-e, %y %-l:%M %P").to_string(),
    )
}

/// The whole seconds of a millisecond timestamp, as chrono takes them.
pub open spec fn whole_seconds(ts_ms: u64) -> i64 {
    (ts_ms / 1000) as i64
}

/// `text` is how a millisecond timestamp is shown: the date at some offset
/// a time zone can have, or the raw milliseconds when chrono cannot represent
/// the instant.
pub open spec fn shows_local_date(ts_ms: u64, text: Seq<char>) -> bool {
    if chrono_represents(whole_seconds(ts_ms)) {
        exists|offset: i32|
            -86_400 < offset < 86_400 && offset_date_text(whole_seconds(ts_ms), offset) == Some(text)
    } else {
        text == decimal_chars(ts_ms as nat)
    }
}

/// Format a Unix millisecond timestamp as local date and time, falling back
/// to the timestamp itself when chrono cannot represent the instant. Which
/// offset applies is the machine's time zone's business.
pub fn format_local_date(ts_ms: u64) -> (s: String)
    ensures
        shows_local_date(ts_ms, s@),
{
    let secs = (ts_ms / 1000) as i64;
    match local_offset_at(secs) {
        Some(offset) => match offset_date_text_of(secs, offset) {
            Some(t) => t,
            None => decimal_string(ts_ms),
        },
        None => decimal_string(ts_ms),
    }
}

/// A regular expression, compiled, with the pattern it was compiled from.
pub struct CompiledRegex {
    text: String,
    re: regex::Regex,
}

impl CompiledRegex {
    /// The pattern's source text.
    pub closed spec fn source(self) -> Seq<char> {
        self.text@
    }
}

/// Whether `regex::Regex::new` accepts a pattern (with the default size limits).
pub uninterp spec fn regex_compiles(pattern: Seq<char>) -> bool;

/// `regex::Regex::new`: compile `pattern`, or `None` when it is refused.
#[verifier::external_body]
fn compile_pattern(pattern: &str) -> (r: Option<CompiledRegex>)
    ensures
        r is Some <==> regex_compiles(pattern@),
        r matches Some(p) ==> p.source() == pattern@,
{
    match regex::Regex::new(pattern) {
        Ok(re) => Some(CompiledRegex { text: pattern.to_string(), re }),
        Err(_) => None,
    }
}

/// What `Regex::replace_all` gives for the pattern, the haystack and the
/// replacement template (with its `$n` group references).
pub uninterp spec fn regex_replaced(pattern: Seq<char>, haystack: Seq<char>, rep: Seq<char>) -> Seq<char>;

/// `regex::Regex::replace_all`: every non-overlapping match of the pattern
/// in `haystack` replaced by the expanded template.
#[verifier::external_body]
fn replace_all(p: &CompiledRegex, haystack: &str, rep: &str) -> (r: String)
    ensures
        r@ == regex_replaced(p.source(), haystack@, rep@),
{
    p.re.replace_all(haystack, rep).into_owned()
}

pub open spec fn link_pattern() -> Seq<char> {
    "\\[([^\\]]+)\\]\\([^)]+\\)"@
}

pub open spec fn bold_pattern() -> Seq<char> {
    "\\*\\*(.+?)\\*\\*"@
}

pub open spec fn italic_pattern() -> Seq<char> {
    "(^|[^*])\\*([^*]+?)\\*([^*]|$)"@
}

pub open spec fn code_pattern() -> Seq<char> {
    "`([^`]+)`"@
}

pub open spec fn heading_pattern() -> Seq<char> {
    "^#+\\s+"@
}

/// Markdown stripped to plain text: links to their text, then bold, italic
/// (with the characters around the stars kept) and code spans to their
/// content, then leading heading marks removed.
pub open spec fn spec_strip_markdown(input: Seq<char>) -> Seq<char> {
    let s1 = regex_replaced(link_pattern(), input, "$1"@);
    let s2 = regex_replaced(bold_pattern(), s1, "$1"@);
    let s3 = regex_replaced(italic_pattern(), s2, "$1$2$3"@);
    let s4 = regex_replaced(code_pattern(), s3, "$1"@);
    regex_replaced(heading_pattern(), s4, ""@)
}

/// All five patterns compile.
pub open spec fn markdown_patterns_compile() -> bool {
    &&& regex_compiles(link_pattern())
    &&& regex_compiles(bold_pattern())
    &&& regex_compiles(italic_pattern())
    &&& regex_compiles(code_pattern())
    &&& regex_compiles(heading_pattern())
}

/// Strip basic Markdown formatting from a string for plain terminal display;
/// `None` only when one of the fixed patterns fails to compile.
pub fn strip_markdown(input: &str) -> (r: Option<String>)
    ensures
        r is Some <==> markdown_patterns_compile(),
        r matches Some(s) ==> s@ == spec_strip_markdown(input@),
{
    // Order matters: links before bold/italic to avoid partial matches.
    let link = compile_pattern("\\[([^\\]]+)\\]\\([^)]+\\)");
    let bold = compile_pattern("\\*\\*(.+?)\\*\\*");
    let italic = compile_pattern("(^|[^*])\\*([^*]+?)\\*([^*]|$)");
    let code = compile_pattern("`([^`]+)`");
    let heading = compile_pattern("^#+\\s+");
    match (link, bold, italic, code, heading) {
        (Some(link), Some(bold), Some(italic), Some(code), Some(heading)) => {
            let s1 = replace_all(&link, input, "$1");
            let s2 = replace_all(&bold, s1.as_str(), "$1");
            let s3 = replace_all(&italic, s2.as_str(), "$1$2$3");
            let s4 = replace_all(&code, s3.as_str(), "$1");
            Some(replace_all(&heading, s4.as_str(), ""))
        },
        _ => None,
    }
}

/// How a reply from the daemon is shown.
#[derive(Debug, Clone, Copy, PartialEq, Eq, Structural)]
pub enum ReplyOutput {
    /// Nothing is printed.
    Nothing,
    /// The reply is not JSON: it is printed as it came.
    Raw,
    /// One line per listed issue.
    IssueList,
    /// The id of the created issue.
    CreatedIssue,
    /// The counts of a rebuild.
    Rebuilt,
    /// Anything else, store statistics among it, pretty-printed.
    Pretty,
}

/// Choose how a daemon reply is shown from whether it parsed as JSON and
/// which of the keys `issues`, `issue_id` and `event_count` it has; the
/// first of them that is present decides. A quiet run prints nothing.
pub fn daemon_reply_output(
    quiet: bool,
    parsed_json: bool,
    has_issues: bool,
    has_issue_id: bool,
    has_event_count: bool,
) -> (r: ReplyOutput)
    ensures
        r == (if quiet {
            ReplyOutput::Nothing
        } else if !parsed_json {
            ReplyOutput::Raw
        } else if has_issues {
            ReplyOutput::IssueList
        } else if has_issue_id {
            ReplyOutput::CreatedIssue
        } else if has_event_count {
            ReplyOutput::Rebuilt
        } else {
            ReplyOutput::Pretty
        }),
{
    if quiet {
        ReplyOutput::Nothing
    } else if !parsed_json {
        ReplyOutput::Raw
    } else if has_issues {
        ReplyOutput::IssueList
    } else if has_issue_id {
        ReplyOutput::CreatedIssue
    } else if has_event_count {
        ReplyOutput::Rebuilt
    } else {
        ReplyOutput::Pretty
    }
}

/// A line of an issue list from the daemon: `<id8> [<state>] <title>`.
pub fn issue_list_line(id: &str, state: &str, title: &str) -> (s: String)
    requires
        id.spec_bytes().len() <= usize::MAX,
        prefix_cut_ok(id, 8),
    ensures
        s@ == clipped_prefix_chars(id@, 8) + " ["@ + state@ + "] "@ + title@,
{
    let mut s = String::from_str(clipped_prefix(id, 8));
    s.append(" [");
    s.append(state);
    s.append("] ");
    s.append(title);
    s
}

/// The line for an issue the daemon created.
pub fn created_issue_line(issue_id: &str) -> (s: String)
    ensures
        s@ == "Created issue "@ + issue_id@,
{
    let mut s = String::from_str("Created issue ");
    s.append(issue_id);
    s
}

/// The line for a rebuild the daemon ran.
pub fn rebuilt_line(events: u64, issues: u64) -> (s: String)
    ensures
        s@ == "Rebuilt: "@ + decimal_chars(events as nat) + " events, "@ + decimal_chars(issues as nat)
            + " issues"@,
{
    let mut s = String::from_str("Rebuilt: ");
    s.append(decimal_string(events).as_str());
    s.append(" events, ");
    s.append(decimal_string(issues).as_str());
    s.append(" issues");
    s
}

/// The suggestion lines that follow an error, after a blank line and a heading.
pub open spec fn suggestion_lines(suggestions: Seq<Seq<char>>) -> Seq<Seq<char>> {
    if suggestions.len() == 0 {
        Seq::empty()
    } else {
        seq![Seq::empty(), "Suggestions:"@] + suggestions.map_values(|t: Seq<char>| "  - "@ + t)
    }
}

/// The lines printed on standard error for a failed command in
/// human-readable mode.
pub fn error_report_lines(message: &str, suggestions: &Vec<String>) -> (r: Vec<String>)
    ensures
        r@.map_values(|l: String| l@) == seq!["error: "@ + message@] + suggestion_lines(
            suggestions@.map_values(|t: String| t@),
        ),
{
    let mut out: Vec<String> = Vec::new();
    let mut first = String::from_str("error: ");
    first.append(message);
    out.push(first);
    let ghost sv = suggestions@.map_values(|t: String| t@);
    if suggestions.len() == 0 {
        proof {
            assert(out@.map_values(|l: String| l@) =~= seq!["error: "@ + message@] + suggestion_lines(sv));
        }
        return out;
    }
    out.push(String::new());
    out.push(String::from_str("Suggestions:"));
    let n = suggestions.len();
    let mut i: usize = 0;
    while i < n
        invariant
            n == suggestions@.len(),
            n > 0,
            i <= n,
            sv == suggestions@.map_values(|t: String| t@),
            out@.len() == 3 + i,
            out@.map_values(|l: String| l@) =~= seq!["error: "@ + message@, Seq::<char>::empty(), "Suggestions:"@]
                + sv.subrange(0, i as int).map_values(|t: Seq<char>| "  - "@ + t),
        decreases n - i,
    {
        let mut line = String::from_str("  - ");
        line.append(suggestions[i].as_str());
        let ghost before = out@.map_values(|l: String| l@);
        out.push(line);
        proof {
            assert(sv.subrange(0, i + 1).map_values(|t: Seq<char>| "  - "@ + t) =~= sv.subrange(
                0,
                i as int,
            ).map_values(|t: Seq<char>| "  - "@ + t).push("  - "@ + sv[i as int]));
            assert(out@.map_values(|l: String| l@) =~= before.push("  - "@ + sv[i as int]));
        }
        i = i + 1;
    }
    proof {
        assert(sv.subrange(0, n as int) =~= sv);
    }
    out
}

/// The cells of one row of the issue table.
pub struct TableRow {
    pub id: String,
    pub state: String,
    pub style: StateStyle,
    pub created: String,
    pub title: String,
}

/// `rows` can be shown: every id can be cut at eight bytes.
pub open spec fn ids_cuttable(rows: Seq<IssueRow>) -> bool {
    forall|k: int|
        0 <= k < rows.len() ==> {
            let b = encode_utf8((#[trigger] rows[k]).id@);
            b.len() <= usize::MAX && (b.len() <= 8 || is_char_boundary(b, 8))
        }
}

/// `t` shows `r`: the short id, the state and its style, the title stripped
/// of Markdown, and the creation time as a local date.
pub open spec fn shows_row(t: TableRow, r: IssueRow) -> bool {
    &&& t.id@ == clipped_prefix_chars(r.id@, 8)
    &&& t.state@ == r.state@
    &&& t.style == (if r.state@ == "open"@ {
        StateStyle::Open
    } else {
        StateStyle::Other
    })
    &&& t.title@ == spec_strip_markdown(r.title@)
    &&& shows_local_date(r.created_ts, t.created@)
}

/// The rows of the issue table, in order; `None` only when the Markdown
/// patterns fail to compile.
pub fn issue_table_rows(issues: &Vec<IssueRow>) -> (r: Option<Vec<TableRow>>)
    requires
        ids_cuttable(issues@),
    ensures
        r is Some <==> (issues@.len() == 0 || markdown_patterns_compile()),
        r matches Some(v) ==> v@.len() == issues@.len() && forall|k: int|
            0 <= k < issues@.len() ==> shows_row(#[trigger] v@[k], issues@[k]),
{
    let mut out: Vec<TableRow> = Vec::new();
    let n = issues.len();
    let mut i: usize = 0;
    while i < n
        invariant
            n == issues@.len(),
            i <= n,
            ids_cuttable(issues@),
            out@.len() == i,
            i > 0 ==> markdown_patterns_compile(),
            forall|k: int| 0 <= k < i ==> shows_row(#[trigger] out@[k], issues@[k]),
        decreases n - i,
    {
        let issue = &issues[i];
        proof {
            assert(issues@[i as int] == *issue);
        }
        let title = match strip_markdown(issue.title.as_str()) {
            Some(t) => t,
            None => {
                return None;
            },
        };
        let row = TableRow {
            id: String::from_str(short_issue_id(issue.id.as_str())),
            state: issue.state.clone(),
            style: state_style(issue.state.as_str()),
            created: format_local_date(issue.created_ts),
            title,
        };
        out.push(row);
        i = i + 1;
    }
    Some(out)
}

#[verifier::external_type_specification]
#[verifier::external_body]
pub struct ExTable(comfy_table::Table);

#[verifier::external_type_specification]
#[verifier::external_body]
pub struct ExCell(comfy_table::Cell);

/// The colour a cell is drawn in.
#[derive(Debug, Clone, Copy, PartialEq, Eq, Structural)]
pub enum CellColor {
    Blue,
    DarkYellow,
}

/// Open issues are blue, everything else dark yellow.
pub open spec fn spec_state_color(style: StateStyle) -> CellColor {
    match style {
        StateStyle::Open => CellColor::Blue,
        StateStyle::Other => CellColor::DarkYellow,
    }
}

/// The colour of a state cell.
pub fn state_color(style: StateStyle) -> (r: CellColor)
    ensures
        r == spec_state_color(style),
{
    match style {
        StateStyle::Open => CellColor::Blue,
        StateStyle::Other => CellColor::DarkYellow,
    }
}

/// What a comfy-table cell holds: its text (its content lines joined by
/// newlines, as `Cell::content` gives it), its foreground colour when one
/// was set, and whether `Attribute::Bold` is among its attributes.
pub uninterp spec fn cell_face(c: comfy_table::Cell) -> (Seq<char>, Option<CellColor>, bool);

/// The header row of a comfy-table table, as the texts of its cells, when
/// one was set.
pub uninterp spec fn table_header(t: comfy_table::Table) -> Option<Seq<Seq<char>>>;

/// The rows added to a comfy-table table, in order, each as what its cells
/// hold.
pub uninterp spec fn table_rows(t: comfy_table::Table) -> Seq<Seq<(Seq<char>, Option<CellColor>, bool)>>;

/// `comfy_table::Table::new`: a table with no header and no rows.
#[verifier::external_body]
fn table_new() -> (t: comfy_table::Table)
    ensures
        table_header(t) == None::<Seq<Seq<char>>>,
        table_rows(t) == Seq::<Seq<(Seq<char>, Option<CellColor>, bool)>>::empty(),
{
    comfy_table::Table::new()
}

/// `Table::load_preset` with comfy-table's `UTF8_FULL` preset (box-drawing
/// borders); it changes only how the table is drawn.
#[verifier::external_body]
fn table_load_utf8_full(t: &mut comfy_table::Table)
    ensures
        table_header(*final(t)) == table_header(*old(t)),
        table_rows(*final(t)) == table_rows(*old(t)),
{
    t.load_preset(comfy_table::presets::UTF8_FULL);
}

/// `Table::apply_modifier` with comfy-table's `UTF8_ROUND_CORNERS` modifier;
/// it changes only how the table is drawn.
#[verifier::external_body]
fn table_round_corners(t: &mut comfy_table::Table)
    ensures
        table_header(*final(t)) == table_header(*old(t)),
        table_rows(*final(t)) == table_rows(*old(t)),
{
    t.apply_modifier(comfy_table::modifiers::UTF8_ROUND_CORNERS);
}

/// `Table::set_content_arrangement` with `ContentArrangement::Dynamic`, which
/// fits the drawing to the terminal's width when there is a terminal; it
/// changes only how the table is drawn.
#[verifier::external_body]
fn table_arrange_dynamically(t: &mut comfy_table::Table)
    ensures
        table_header(*final(t)) == table_header(*old(t)),
        table_rows(*final(t)) == table_rows(*old(t)),
{
    t.set_content_arrangement(comfy_table::ContentArrangement::Dynamic);
}

/// `Table::set_header`: the header becomes one cell per name, holding it.
#[verifier::external_body]
fn table_set_header(t: &mut comfy_table::Table, names: Vec<String>)
    ensures
        table_header(*final(t)) == Some(names@.map_values(|n: String| n@)),
        table_rows(*final(t)) == table_rows(*old(t)),
{
    t.set_header(names);
}

/// `Table::add_row`: the cells, in order, become the table's last row.
#[verifier::external_body]
fn table_add_row(t: &mut comfy_table::Table, cells: Vec<comfy_table::Cell>)
    ensures
        table_header(*final(t)) == table_header(*old(t)),
        table_rows(*final(t)) == table_rows(*old(t)).push(
            cells@.map_values(|c: comfy_table::Cell| cell_face(c)),
        ),
{
    t.add_row(cells);
}

/// `comfy_table::Cell::new`: a cell holding `text`, with no colour and no
/// attribute.
#[verifier::external_body]
fn cell_new(text: &str) -> (c: comfy_table::Cell)
    ensures
        cell_face(c) == (text@, None::<CellColor>, false),
{
    comfy_table::Cell::new(text)
}

/// `Cell::fg`: the same cell with its foreground colour set to `color`.
#[verifier::external_body]
fn cell_fg(c: comfy_table::Cell, color: CellColor) -> (r: comfy_table::Cell)
    ensures
        cell_face(r) == (cell_face(c).0, Some(color), cell_face(c).2),
{
    c.fg(
        match color {
            CellColor::Blue => comfy_table::Color::Blue,
            CellColor::DarkYellow => comfy_table::Color::DarkYellow,
        },
    )
}

/// `Cell::add_attribute` with `Attribute::Bold`: the same cell, bold.
#[verifier::external_body]
fn cell_bold(c: comfy_table::Cell) -> (r: comfy_table::Cell)
    ensures
        cell_face(r) == (cell_face(c).0, cell_face(c).1, true),
{
    c.add_attribute(comfy_table::Attribute::Bold)
}

/// comfy-table's `Display` of the table. The drawing depends on whether
/// output goes to a terminal and on its width, so nothing is stated of the
/// text.
#[verifier::external_body]
fn table_text(t: &comfy_table::Table) -> (s: String) {
    t.to_string()
}

/// The column names of the issue table.
pub open spec fn issue_table_header() -> Seq<Seq<char>> {
    seq!["ID"@, "Status"@, "Created"@, "Title"@]
}

/// The cells a table row is drawn from: the short id, the state (coloured
/// by its style, bold when open), the created date and the title.
pub open spec fn row_faces(r: TableRow) -> Seq<(Seq<char>, Option<CellColor>, bool)> {
    seq![
        (r.id@, None::<CellColor>, false),
        (r.state@, Some(spec_state_color(r.style)), r.style == StateStyle::Open),
        (r.created@, None::<CellColor>, false),
        (r.title@, None::<CellColor>, false),
    ]
}

/// `t` is the issue table for `issues`: the four column names, and one row
/// per issue, in order, showing it.
pub open spec fn draws_issues(t: comfy_table::Table, issues: Seq<IssueRow>) -> bool {
    &&& table_header(t) == Some(issue_table_header())
    &&& table_rows(t).len() == issues.len()
    &&& exists|rows: Seq<TableRow>|
        {
            &&& rows.len() == issues.len()
            &&& table_rows(t) == rows.map_values(|r: TableRow| row_faces(r))
            &&& forall|k: int| 0 <= k < rows.len() ==> shows_row(#[trigger] rows[k], issues[k])
        }
}

fn row_cells(row: &TableRow) -> (cells: Vec<comfy_table::Cell>)
    ensures
        cells@.map_values(|c: comfy_table::Cell| cell_face(c)) == row_faces(*row),
{
    let mut cells: Vec<comfy_table::Cell> = Vec::new();
    cells.push(cell_new(row.id.as_str()));
    let state = cell_fg(cell_new(row.state.as_str()), state_color(row.style));
    let state = match row.style {
        StateStyle::Open => cell_bold(state),
        StateStyle::Other => state,
    };
    cells.push(state);
    cells.push(cell_new(row.created.as_str()));
    cells.push(cell_new(row.title.as_str()));
    assert(cells@.map_values(|c: comfy_table::Cell| cell_face(c)) =~= row_faces(*row));
    cells
}

/// The issue table for `rows`: the columns ID, Status, Created and Title,
/// and one row per entry, in order, drawn from its cells.
pub fn issue_table(rows: &Vec<TableRow>) -> (t: comfy_table::Table)
    ensures
        table_header(t) == Some(issue_table_header()),
        table_rows(t) == rows@.map_values(|r: TableRow| row_faces(r)),
{
    let mut table = table_new();
    table_load_utf8_full(&mut table);
    table_round_corners(&mut table);
    table_arrange_dynamically(&mut table);
    let mut header: Vec<String> = Vec::new();
    header.push(String::from_str("ID"));
    header.push(String::from_str("Status"));
    header.push(String::from_str("Created"));
    header.push(String::from_str("Title"));
    proof {
        reveal_strlit("ID");
        reveal_strlit("Status");
        reveal_strlit("Created");
        reveal_strlit("Title");
        assert(header@.map_values(|n: String| n@) =~= issue_table_header());
    }
    table_set_header(&mut table, header);
    let n = rows.len();
    let mut i: usize = 0;
    while i < n
        invariant
            n == rows@.len(),
            i <= n,
            table_header(table) == Some(issue_table_header()),
            table_rows(table) == rows@.subrange(0, i as int).map_values(|r: TableRow| row_faces(r)),
        decreases n - i,
    {
        table_add_row(&mut table, row_cells(&rows[i]));
        assert(rows@.subrange(0, i + 1) =~= rows@.subrange(0, i as int).push(rows@[i as int]));
        i = i + 1;
        assert(table_rows(table) =~= rows@.subrange(0, i as int).map_values(|r: TableRow| row_faces(r)));
    }
    assert(rows@.subrange(0, n as int) =~= rows@);
    table
}

/// Format a list of issues as a coloured table followed by the totals line;
/// `None` only when the Markdown patterns fail to compile. The table holds
/// the four column names and one row per issue, in order, as
/// `issue_table_rows` gives them; the text of the table is comfy-table's
/// drawing of it.
pub fn format_issue_table(issues: &Vec<IssueRow>) -> (r: Option<String>)
    requires
        ids_cuttable(issues@),
    ensures
        r is Some <==> (issues@.len() == 0 || markdown_patterns_compile()),
        r is Some ==> exists|t: comfy_table::Table| #[trigger] draws_issues(t, issues@),
        r matches Some(s) ==> exists|drawn: Seq<char>| s@ == drawn + spec_table_footer(issues@),
{
    let rows = match issue_table_rows(issues) {
        Some(rows) => rows,
        None => {
            return None;
        },
    };
    let table = issue_table(&rows);
    assert(draws_issues(table, issues@));
    let mut s = table_text(&table);
    let ghost drawn = s@;
    s.append(table_footer(issues).as_str());
    assert(s@ == drawn + spec_table_footer(issues@));
    Some(s)
}

/// How a command's successful result is shown.
#[derive(Debug, Clone, Copy, PartialEq, Eq, Structural)]
pub enum SuccessOutput {
    /// The JSON envelope with `ok: true` and the data.
    JsonEnvelope,
    /// The data alone, pretty-printed.
    PrettyData,
    /// Nothing.
    Silent,
}

/// `--json` always prints the envelope; otherwise `--quiet` silences the output.
pub fn success_output(json: bool, quiet: bool) -> (r: SuccessOutput)
    ensures
        r == (if json {
            SuccessOutput::JsonEnvelope
        } else if !quiet {
            SuccessOutput::PrettyData
        } else {
            SuccessOutput::Silent
        }),
{
    if json {
        SuccessOutput::JsonEnvelope
    } else if !quiet {
        SuccessOutput::PrettyData
    } else {
        SuccessOutput::Silent
    }
}

/// Human-readable lines are printed unless JSON or quiet output was asked for.
pub fn prints_human(json: bool, quiet: bool) -> (r: bool)
    ensures
        r == (!json && !quiet),
{
    !json && !quiet
}

/// An error's JSON envelope carries details only when there are suggestions.
pub fn error_has_details(suggestion_count: usize) -> (r: bool)
    ensures
        r == (suggestion_count > 0),
{
    suggestion_count > 0
}

} // verus!
