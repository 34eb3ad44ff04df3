//! What the command line client prints for a service response: error
//! messages, the text forms of a pane and of a pane snapshot, success
//! messages, and the rows of tab and pane listings.
use vstd::prelude::*;
use crate::types::{
    PaneSummary, PaneSummaryView, TabSummary, TerminalControlError, TerminalControlResponse,
    TerminalPaneSnapshot, TerminalPaneSnapshotView, copy_error, copy_pane_summary, copy_snapshot,
    opt_str_view,
};

verus! {

/// How the client prints its output.
#[derive(Debug, Clone, Copy, PartialEq, Eq)]
pub enum OutputFormat {
    /// Pretty-printed JSON.
    Json,
    /// JSON on one line.
    Ndjson,
    /// Text for people.
    Pretty,
    /// Tab-separated text.
    Text,
}

/// The message that the client prints for a service error.
pub open spec fn error_message(error: TerminalControlError) -> Seq<char> {
    match error {
        TerminalControlError::PaneNotFound { pane_id: Some(pane_id) } => "Pane not found: "@
            + pane_id@,
        TerminalControlError::PaneNotFound { pane_id: None } => "Pane not found"@,
        TerminalControlError::PaneNotTerminal { pane_id } => "Pane is not a terminal: "@
            + pane_id@,
        TerminalControlError::PaneNotReadable { pane_id } => "Pane is not readable: "@
            + pane_id@,
        TerminalControlError::PaneNotWritable { pane_id } => "Pane is not writable: "@
            + pane_id@,
        TerminalControlError::NoActiveTerminal => "No active terminal"@,
        TerminalControlError::UnsupportedKey { key } => "Unsupported key: "@ + key@,
        TerminalControlError::IpcUnavailable => "Warp app is not available"@,
    }
}

/// A string made of `prefix` followed by `rest`.
fn joined(prefix: &str, rest: &String) -> (s: String)
    ensures
        s@ == prefix@ + rest@,
{
    let mut s = String::from_str(prefix);
    s.append(rest.as_str());
    s
}

/// The concise message that the client prints for a service error.
pub fn format_error(error: &TerminalControlError) -> (message: String)
    ensures
        message@ == error_message(*error),
{
    match error {
        TerminalControlError::PaneNotFound { pane_id: Some(pane_id) } => joined(
            "Pane not found: ",
            pane_id,
        ),
        TerminalControlError::PaneNotFound { pane_id: None } => String::from_str("Pane not found"),
        TerminalControlError::PaneNotTerminal { pane_id } => joined(
            "Pane is not a terminal: ",
            pane_id,
        ),
        TerminalControlError::PaneNotReadable { pane_id } => joined(
            "Pane is not readable: ",
            pane_id,
        ),
        TerminalControlError::PaneNotWritable { pane_id } => joined(
            "Pane is not writable: ",
            pane_id,
        ),
        TerminalControlError::NoActiveTerminal => String::from_str("No active terminal"),
        TerminalControlError::UnsupportedKey { key } => joined("Unsupported key: ", key),
        TerminalControlError::IpcUnavailable => String::from_str("Warp app is not available"),
    }
}

/// The text of a boolean.
pub open spec fn bool_text(b: bool) -> Seq<char> {
    if b {
        "true"@
    } else {
        "false"@
    }
}

/// The text of an optional string: the string, or nothing.
pub open spec fn opt_text(o: Option<Seq<char>>) -> Seq<char> {
    match o {
        Some(s) => s,
        None => ""@,
    }
}

/// The text of a decimal digit.
pub open spec fn digit_text(d: nat) -> Seq<char> {
    if d == 0 {
        "0"@
    } else if d == 1 {
        "1"@
    } else if d == 2 {
        "2"@
    } else if d == 3 {
        "3"@
    } else if d == 4 {
        "4"@
    } else if d == 5 {
        "5"@
    } else if d == 6 {
        "6"@
    } else if d == 7 {
        "7"@
    } else if d == 8 {
        "8"@
    } else {
        "9"@
    }
}

/// The decimal text of a natural number, without leading zeros.
pub open spec fn decimal_text(n: nat) -> Seq<char>
    decreases n,
{
    if n < 10 {
        digit_text(n)
    } else {
        decimal_text(n / 10) + digit_text(n % 10)
    }
}

/// The text of an optional number: its decimal text, or nothing.
pub open spec fn opt_number_text(o: Option<usize>) -> Seq<char> {
    match o {
        Some(n) => decimal_text(n as nat),
        None => ""@,
    }
}

/// A labelled line: the label, the value and a line break.
pub open spec fn line(label: Seq<char>, value: Seq<char>) -> Seq<char> {
    label + value + "\n"@
}

fn bool_str(b: bool) -> (s: &'static str)
    ensures
        s@ == bool_text(b),
{
    if b {
        "true"
    } else {
        "false"
    }
}

fn opt_str(o: &Option<String>) -> (s: &str)
    ensures
        s@ == opt_text(opt_str_view(*o)),
{
    match o {
        Some(s) => s.as_str(),
        None => "",
    }
}

fn digit_str(d: usize) -> (s: &'static str)
    requires
        d < 10,
    ensures
        s@ == digit_text(d as nat),
{
    if d == 0 {
        "0"
    } else if d == 1 {
        "1"
    } else if d == 2 {
        "2"
    } else if d == 3 {
        "3"
    } else if d == 4 {
        "4"
    } else if d == 5 {
        "5"
    } else if d == 6 {
        "6"
    } else if d == 7 {
        "7"
    } else if d == 8 {
        "8"
    } else {
        "9"
    }
}

/// Appends the decimal text of `n` to `out`.
fn push_decimal(out: &mut String, n: usize)
    ensures
        final(out)@ == old(out)@ + decimal_text(n as nat),
    decreases n,
{
    if n >= 10 {
        push_decimal(out, n / 10);
    }
    out.append(digit_str(n % 10));
    proof {
        if n >= 10 {
            assert(decimal_text(n as nat) == decimal_text((n / 10) as nat) + digit_text(
                (n % 10) as nat,
            ));
        }
    }
}

/// Appends a labelled line to `out`.
fn push_line(out: &mut String, label: &str, value: &str)
    ensures
        final(out)@ == old(out)@ + line(label@, value@),
{
    out.append(label);
    out.append(value);
    out.append("\n");
}

/// Appends a labelled line holding an optional number to `out`.
fn push_number_line(out: &mut String, label: &str, value: Option<usize>)
    ensures
        final(out)@ == old(out)@ + line(label@, opt_number_text(value)),
{
    out.append(label);
    match value {
        Some(n) => push_decimal(out, n),
        None => {
            proof {
                reveal_strlit("");
                assert(out@ =~= out@ + ""@);
            }
        },
    }
    out.append("\n");
}

/// The metadata lines of a pane snapshot, one labelled line each.
pub open spec fn snapshot_header_text(s: TerminalPaneSnapshotView) -> Seq<char> {
    line("Pane ID: "@, s.pane_id) + line("Title: "@, s.title) + line("Cwd: "@, opt_text(s.cwd))
        + line("Focused: "@, bool_text(s.focused)) + line("Active: "@, bool_text(s.active))
        + line("Truncated: "@, bool_text(s.truncated)) + line(
        "Cursor Row: "@,
        opt_number_text(s.cursor_row),
    ) + line("Cursor Col: "@, opt_number_text(s.cursor_col))
}

/// The text form of a pane snapshot: its metadata lines, an empty line, and
/// then the captured text as it is.
pub open spec fn snapshot_text(s: TerminalPaneSnapshotView) -> Seq<char> {
    snapshot_header_text(s) + "\n"@ + s.content
}

/// The form of a pane for people: one labelled line per field.
pub open spec fn pane_pretty_text(p: PaneSummaryView) -> Seq<char> {
    line("Pane ID: "@, p.pane_id) + line("Tab ID: "@, p.tab_id) + line(
        "Workspace ID: "@,
        opt_text(p.workspace_id),
    ) + line("Title: "@, p.title) + line("Cwd: "@, opt_text(p.cwd)) + line(
        "Command: "@,
        opt_text(p.command),
    ) + line("Focused: "@, bool_text(p.focused)) + line("Active: "@, bool_text(p.active)) + line(
        "Pane type: "@,
        p.pane_type,
    )
}

/// The header line of the tab-separated form of a pane.
pub open spec fn pane_text_header() -> Seq<char> {
    "Pane ID\tTab ID\tWorkspace ID\tTitle\tCwd\tCommand\tFocused\tActive\tPane type\n"@
}

/// A value followed by a separator.
pub open spec fn field(value: Seq<char>, sep: Seq<char>) -> Seq<char> {
    value + sep
}

/// The tab-separated form of a pane: a header line and a line of values.
pub open spec fn pane_tabbed_text(p: PaneSummaryView) -> Seq<char> {
    pane_text_header() + field(p.pane_id, "\t"@) + field(p.tab_id, "\t"@) + field(
        opt_text(p.workspace_id),
        "\t"@,
    ) + field(p.title, "\t"@) + field(opt_text(p.cwd), "\t"@) + field(
        opt_text(p.command),
        "\t"@,
    ) + field(bool_text(p.focused), "\t"@) + field(bool_text(p.active), "\t"@) + field(
        p.pane_type,
        "\n"@,
    )
}

/// A value that the client prints as JSON.
#[derive(Debug, Clone, PartialEq, Eq)]
pub enum JsonValue {
    Pane(PaneSummary),
    Snapshot(TerminalPaneSnapshot),
    /// An object with the one field `message`.
    Message(String),
    /// An object with the one field `pane_id`.
    CreatedTab(String),
}

/// A row of the tab listing.
#[derive(Debug, Clone, PartialEq, Eq)]
pub struct TerminalControlListTabRow {
    pub tab_id: String,
    pub title: String,
    pub active: bool,
}

/// A row of the pane listing.
#[derive(Debug, Clone, PartialEq, Eq)]
pub struct TerminalControlListPaneRow {
    pub pane_id: String,
    pub tab_id: String,
    pub workspace_id: Option<String>,
    pub title: String,
    pub cwd: Option<String>,
    pub command: Option<String>,
    pub focused: bool,
    pub active: bool,
    pub pane_type: String,
}

/// What remains to be printed once a response has been written.
#[derive(Debug, Clone, PartialEq, Eq)]
pub enum WriteOutcome {
    /// Everything was written to the output as text.
    Written,
    /// The value is to be printed as JSON: pretty-printed with a line break
    /// after it, or on one line when `line`.
    Json { value: JsonValue, line: bool },
    /// The tab listing is to be printed, as a table or as JSON.
    TabRows(Vec<TerminalControlListTabRow>),
    /// The pane listing is to be printed, as a table or as JSON.
    PaneRows(Vec<TerminalControlListPaneRow>),
}

/// Whether a format is one of the JSON formats, and if so whether it prints
/// one line.
pub open spec fn json_line(format: OutputFormat) -> Option<bool> {
    match format {
        OutputFormat::Json => Some(false),
        OutputFormat::Ndjson => Some(true),
        _ => None,
    }
}

/// What writing a pane snapshot does: for a JSON format it leaves the output
/// as it was and hands the snapshot on to be printed as JSON; otherwise it
/// appends the snapshot's text form.
pub open spec fn snapshot_written(
    before: Seq<char>,
    after: Seq<char>,
    outcome: WriteOutcome,
    snapshot: TerminalPaneSnapshot,
    format: OutputFormat,
) -> bool {
    match json_line(format) {
        Some(l) => {
            &&& after == before
            &&& outcome matches WriteOutcome::Json { value: JsonValue::Snapshot(s), line } && s
                == snapshot && line == l
        },
        None => after == before + snapshot_text(snapshot@) && outcome is Written,
    }
}

/// What writing a pane does: for a JSON format it leaves the output as it was
/// and hands the pane on to be printed as JSON; otherwise it appends the
/// pane's form for people or its tab-separated form.
pub open spec fn pane_written(
    before: Seq<char>,
    after: Seq<char>,
    outcome: WriteOutcome,
    pane: PaneSummary,
    format: OutputFormat,
) -> bool {
    match format {
        OutputFormat::Json | OutputFormat::Ndjson => {
            &&& after == before
            &&& outcome matches WriteOutcome::Json { value: JsonValue::Pane(p), line } && p == pane
                && line == (format == OutputFormat::Ndjson)
        },
        OutputFormat::Pretty => after == before + pane_pretty_text(pane@) && outcome is Written,
        OutputFormat::Text => after == before + pane_tabbed_text(pane@) && outcome is Written,
    }
}

/// What writing a success message does: for a JSON format it leaves the
/// output as it was and hands the message on to be printed as JSON;
/// otherwise it appends the message and a line break.
pub open spec fn message_written(
    before: Seq<char>,
    after: Seq<char>,
    outcome: WriteOutcome,
    message: Seq<char>,
    format: OutputFormat,
) -> bool {
    match json_line(format) {
        Some(l) => {
            &&& after == before
            &&& outcome matches WriteOutcome::Json { value: JsonValue::Message(m), line } && m@
                == message && line == l
        },
        None => after == before + message + "\n"@ && outcome is Written,
    }
}

/// Appends the text form of a pane snapshot to `output`.
fn push_snapshot_text(output: &mut String, snapshot: &TerminalPaneSnapshot)
    ensures
        final(output)@ == old(output)@ + snapshot_text(snapshot@),
{
    push_snapshot_header(output, snapshot);
    output.append("\n");
    output.append(snapshot.content.as_str());
}

/// Appends the metadata lines of a pane snapshot to `output`.
fn push_snapshot_header(output: &mut String, snapshot: &TerminalPaneSnapshot)
    ensures
        final(output)@ == old(output)@ + snapshot_header_text(snapshot@),
{
    push_line(output, "Pane ID: ", snapshot.pane_id.as_str());
    push_line(output, "Title: ", snapshot.title.as_str());
    push_line(output, "Cwd: ", opt_str(&snapshot.cwd));
    push_line(output, "Focused: ", bool_str(snapshot.focused));
    push_line(output, "Active: ", bool_str(snapshot.active));
    push_line(output, "Truncated: ", bool_str(snapshot.truncated));
    push_number_line(output, "Cursor Row: ", snapshot.cursor_row);
    push_number_line(output, "Cursor Col: ", snapshot.cursor_col);
}

/// Writes a pane snapshot: as JSON, or as its text form.
pub fn write_read_pane_to(
    output: &mut String,
    snapshot: &TerminalPaneSnapshot,
    output_format: OutputFormat,
) -> (outcome: WriteOutcome)
    ensures
        snapshot_written(old(output)@, final(output)@, outcome, *snapshot, output_format),
{
    match output_format {
        OutputFormat::Json => WriteOutcome::Json {
            value: JsonValue::Snapshot(copy_snapshot(snapshot)),
            line: false,
        },
        OutputFormat::Ndjson => WriteOutcome::Json {
            value: JsonValue::Snapshot(copy_snapshot(snapshot)),
            line: true,
        },
        OutputFormat::Pretty | OutputFormat::Text => {
            push_snapshot_text(output, snapshot);
            WriteOutcome::Written
        },
    }
}

/// Appends the form of a pane for people to `output`.
fn push_pane_pretty(output: &mut String, pane: &PaneSummary)
    ensures
        final(output)@ == old(output)@ + pane_pretty_text(pane@),
{
    push_line(output, "Pane ID: ", pane.pane_id.as_str());
    push_line(output, "Tab ID: ", pane.tab_id.as_str());
    push_line(output, "Workspace ID: ", opt_str(&pane.workspace_id));
    push_line(output, "Title: ", pane.title.as_str());
    push_line(output, "Cwd: ", opt_str(&pane.cwd));
    push_line(output, "Command: ", opt_str(&pane.command));
    push_line(output, "Focused: ", bool_str(pane.focused));
    push_line(output, "Active: ", bool_str(pane.active));
    push_line(output, "Pane type: ", pane.pane_type.as_str());
}

/// Appends `value` and then `sep` to `output`.
fn push_field(output: &mut String, value: &str, sep: &str)
    ensures
        final(output)@ == old(output)@ + field(value@, sep@),
{
    output.append(value);
    output.append(sep);
}

/// Appends the tab-separated form of a pane to `output`.
fn push_pane_tabbed(output: &mut String, pane: &PaneSummary)
    ensures
        final(output)@ == old(output)@ + pane_tabbed_text(pane@),
{
    output.append(
        "Pane ID\tTab ID\tWorkspace ID\tTitle\tCwd\tCommand\tFocused\tActive\tPane type\n",
    );
    push_field(output, pane.pane_id.as_str(), "\t");
    push_field(output, pane.tab_id.as_str(), "\t");
    push_field(output, opt_str(&pane.workspace_id), "\t");
    push_field(output, pane.title.as_str(), "\t");
    push_field(output, opt_str(&pane.cwd), "\t");
    push_field(output, opt_str(&pane.command), "\t");
    push_field(output, bool_str(pane.focused), "\t");
    push_field(output, bool_str(pane.active), "\t");
    push_field(output, pane.pane_type.as_str(), "\n");
}

/// Writes a pane: as JSON, as one labelled line per field, or as a
/// tab-separated header and row.
pub fn write_current_pane_to(
    output: &mut String,
    pane: &PaneSummary,
    output_format: OutputFormat,
) -> (outcome: WriteOutcome)
    ensures
        pane_written(old(output)@, final(output)@, outcome, *pane, output_format),
{
    match output_format {
        OutputFormat::Json => WriteOutcome::Json {
            value: JsonValue::Pane(copy_pane_summary(pane)),
            line: false,
        },
        OutputFormat::Ndjson => WriteOutcome::Json {
            value: JsonValue::Pane(copy_pane_summary(pane)),
            line: true,
        },
        OutputFormat::Pretty => {
            push_pane_pretty(output, pane);
            WriteOutcome::Written
        },
        OutputFormat::Text => {
            push_pane_tabbed(output, pane);
            WriteOutcome::Written
        },
    }
}

/// Writes a success message: as a JSON object with the one field `message`,
/// or as the message on a line of its own.
pub fn write_success_message_to(
    output: &mut String,
    output_format: OutputFormat,
    message: &str,
) -> (outcome: WriteOutcome)
    ensures
        message_written(old(output)@, final(output)@, outcome, message@, output_format),
{
    match output_format {
        OutputFormat::Json => WriteOutcome::Json {
            value: JsonValue::Message(String::from_str(message)),
            line: false,
        },
        OutputFormat::Ndjson => WriteOutcome::Json {
            value: JsonValue::Message(String::from_str(message)),
            line: true,
        },
        OutputFormat::Pretty | OutputFormat::Text => {
            output.append(message);
            output.append("\n");
            WriteOutcome::Written
        },
    }
}

/// The listing row of a tab: its fields as they are.
pub open spec fn tab_row_of(value: TabSummary) -> TerminalControlListTabRow {
    TerminalControlListTabRow { tab_id: value.tab_id, title: value.title, active: value.active }
}

/// The listing row of a pane: its fields as they are.
pub open spec fn pane_row_of(value: PaneSummary) -> TerminalControlListPaneRow {
    TerminalControlListPaneRow {
        pane_id: value.pane_id,
        tab_id: value.tab_id,
        workspace_id: value.workspace_id,
        title: value.title,
        cwd: value.cwd,
        command: value.command,
        focused: value.focused,
        active: value.active,
        pane_type: value.pane_type,
    }
}

impl From<TabSummary> for TerminalControlListTabRow {
    fn from(value: TabSummary) -> (row: Self) {
        TerminalControlListTabRow { tab_id: value.tab_id, title: value.title, active: value.active }
    }
}

impl vstd::std_specs::convert::FromSpecImpl<TabSummary> for TerminalControlListTabRow {
    open spec fn obeys_from_spec() -> bool {
        true
    }

    open spec fn from_spec(value: TabSummary) -> Self {
        tab_row_of(value)
    }
}

impl From<PaneSummary> for TerminalControlListPaneRow {
    fn from(value: PaneSummary) -> (row: Self) {
        TerminalControlListPaneRow {
            pane_id: value.pane_id,
            tab_id: value.tab_id,
            workspace_id: value.workspace_id,
            title: value.title,
            cwd: value.cwd,
            command: value.command,
            focused: value.focused,
            active: value.active,
            pane_type: value.pane_type,
        }
    }
}

impl vstd::std_specs::convert::FromSpecImpl<PaneSummary> for TerminalControlListPaneRow {
    open spec fn obeys_from_spec() -> bool {
        true
    }

    open spec fn from_spec(value: PaneSummary) -> Self {
        pane_row_of(value)
    }
}

/// The views of a list of strings.
pub open spec fn string_views(v: Seq<String>) -> Seq<Seq<char>> {
    v.map_values(|s: String| s@)
}

impl TerminalControlListTabRow {
    /// The column titles of the tab listing.
    pub fn header() -> (cells: Vec<String>)
        ensures
            string_views(cells@) == seq!["Tab ID"@, "Title"@, "Active"@],
    {
        let cells = vec![
            String::from_str("Tab ID"),
            String::from_str("Title"),
            String::from_str("Active"),
        ];
        assert(string_views(cells@) =~= seq!["Tab ID"@, "Title"@, "Active"@]);
        cells
    }

    /// The cells of this row.
    pub fn row(&self) -> (cells: Vec<String>)
        ensures
            string_views(cells@) == seq![self.tab_id@, self.title@, bool_text(self.active)],
    {
        let cells = vec![
            self.tab_id.clone(),
            self.title.clone(),
            String::from_str(bool_str(self.active)),
        ];
        assert(string_views(cells@) =~= seq![
            self.tab_id@,
            self.title@,
            bool_text(self.active),
        ]);
        cells
    }
}

impl TerminalControlListPaneRow {
    /// The column titles of the pane listing.
    pub fn header() -> (cells: Vec<String>)
        ensures
            string_views(cells@) == seq![
                "Pane ID"@,
                "Tab ID"@,
                "Workspace ID"@,
                "Title"@,
                "Cwd"@,
                "Command"@,
                "Focused"@,
                "Active"@,
                "Pane type"@,
            ],
    {
        let cells = vec![
            String::from_str("Pane ID"),
            String::from_str("Tab ID"),
            String::from_str("Workspace ID"),
            String::from_str("Title"),
            String::from_str("Cwd"),
            String::from_str("Command"),
            String::from_str("Focused"),
            String::from_str("Active"),
            String::from_str("Pane type"),
        ];
        assert(string_views(cells@) =~= seq![
            "Pane ID"@,
            "Tab ID"@,
            "Workspace ID"@,
            "Title"@,
            "Cwd"@,
            "Command"@,
            "Focused"@,
            "Active"@,
            "Pane type"@,
        ]);
        cells
    }

    /// The cells of this row; a missing value is an empty cell.
    pub fn row(&self) -> (cells: Vec<String>)
        ensures
            string_views(cells@) == seq![
                self.pane_id@,
                self.tab_id@,
                opt_text(opt_str_view(self.workspace_id)),
                self.title@,
                opt_text(opt_str_view(self.cwd)),
                opt_text(opt_str_view(self.command)),
                bool_text(self.focused),
                bool_text(self.active),
                self.pane_type@,
            ],
    {
        let cells = vec![
            self.pane_id.clone(),
            self.tab_id.clone(),
            String::from_str(opt_str(&self.workspace_id)),
            self.title.clone(),
            String::from_str(opt_str(&self.cwd)),
            String::from_str(opt_str(&self.command)),
            String::from_str(bool_str(self.focused)),
            String::from_str(bool_str(self.active)),
            self.pane_type.clone(),
        ];
        assert(string_views(cells@) =~= seq![
            self.pane_id@,
            self.tab_id@,
            opt_text(opt_str_view(self.workspace_id)),
            self.title@,
            opt_text(opt_str_view(self.cwd)),
            opt_text(opt_str_view(self.command)),
            bool_text(self.focused),
            bool_text(self.active),
            self.pane_type@,
        ]);
        cells
    }
}

/// What writing the answer to a created tab does: for a JSON format it leaves
/// the output as it was and hands the new pane's handle on to be printed as
/// JSON; otherwise it appends the handle on a labelled line.
pub open spec fn created_tab_written(
    before: Seq<char>,
    after: Seq<char>,
    outcome: WriteOutcome,
    pane_id: Seq<char>,
    format: OutputFormat,
) -> bool {
    match json_line(format) {
        Some(l) => {
            &&& after == before
            &&& outcome matches WriteOutcome::Json { value: JsonValue::CreatedTab(p), line } && p@
                == pane_id && line == l
        },
        None => after == before + line("Pane ID: "@, pane_id) && outcome is Written,
    }
}

/// The rows of a tab listing.
fn tab_rows(tabs: &Vec<TabSummary>) -> (rows: Vec<TerminalControlListTabRow>)
    ensures
        rows@ == tabs@.map_values(|t: TabSummary| tab_row_of(t)),
{
    let mut rows: Vec<TerminalControlListTabRow> = Vec::new();
    let mut i: usize = 0;
    while i < tabs.len()
        invariant
            i <= tabs@.len(),
            rows@ == tabs@.subrange(0, i as int).map_values(|t: TabSummary| tab_row_of(t)),
        decreases tabs@.len() - i,
    {
        let tab = &tabs[i];
        let copy = TabSummary { tab_id: tab.tab_id.clone(), title: tab.title.clone(), active: tab.active };
        rows.push(TerminalControlListTabRow::from(copy));
        assert(tabs@.subrange(0, i + 1) =~= tabs@.subrange(0, i as int).push(tabs@[i as int]));
        i = i + 1;
    }
    assert(tabs@.subrange(0, i as int) =~= tabs@);
    rows
}

/// The rows of a pane listing.
fn pane_rows(panes: &Vec<PaneSummary>) -> (rows: Vec<TerminalControlListPaneRow>)
    ensures
        rows@ == panes@.map_values(|p: PaneSummary| pane_row_of(p)),
{
    let mut rows: Vec<TerminalControlListPaneRow> = Vec::new();
    let mut i: usize = 0;
    while i < panes.len()
        invariant
            i <= panes@.len(),
            rows@ == panes@.subrange(0, i as int).map_values(|p: PaneSummary| pane_row_of(p)),
        decreases panes@.len() - i,
    {
        rows.push(TerminalControlListPaneRow::from(copy_pane_summary(&panes[i])));
        assert(panes@.subrange(0, i + 1) =~= panes@.subrange(0, i as int).push(panes@[i as int]));
        i = i + 1;
    }
    assert(panes@.subrange(0, i as int) =~= panes@);
    rows
}

/// Writes a response to `output`, or says what remains to be printed: the
/// rows of a listing, or a value to print as JSON. An error response is
/// handed back as the error.
pub fn write_response_to(
    output: &mut String,
    response: &TerminalControlResponse,
    output_format: OutputFormat,
) -> (r: Result<WriteOutcome, TerminalControlError>)
    ensures
        match *response {
            TerminalControlResponse::ListTabs(tabs) => {
                &&& final(output)@ == old(output)@
                &&& r matches Ok(WriteOutcome::TabRows(rows)) && rows@ == tabs@.map_values(
                    |t: TabSummary| tab_row_of(t),
                )
            },
            TerminalControlResponse::ListPanes(panes) => {
                &&& final(output)@ == old(output)@
                &&& r matches Ok(WriteOutcome::PaneRows(rows)) && rows@ == panes@.map_values(
                    |p: PaneSummary| pane_row_of(p),
                )
            },
            TerminalControlResponse::CurrentPane(pane) => r matches Ok(outcome) && pane_written(
                old(output)@,
                final(output)@,
                outcome,
                pane,
                output_format,
            ),
            TerminalControlResponse::ReadPane(snapshot) => r matches Ok(outcome)
                && snapshot_written(
                old(output)@,
                final(output)@,
                outcome,
                snapshot,
                output_format,
            ),
            TerminalControlResponse::CreateTab { pane_id } => r matches Ok(outcome)
                && created_tab_written(
                old(output)@,
                final(output)@,
                outcome,
                pane_id@,
                output_format,
            ),
            TerminalControlResponse::FocusPane => r matches Ok(outcome) && message_written(
                old(output)@,
                final(output)@,
                outcome,
                "Pane focused"@,
                output_format,
            ),
            TerminalControlResponse::SendText => r matches Ok(outcome) && message_written(
                old(output)@,
                final(output)@,
                outcome,
                "Text sent"@,
                output_format,
            ),
            TerminalControlResponse::SendKey => r matches Ok(outcome) && message_written(
                old(output)@,
                final(output)@,
                outcome,
                "Key sent"@,
                output_format,
            ),
            TerminalControlResponse::Error(error) => final(output)@ == old(output)@ && r == Err::<
                WriteOutcome,
                TerminalControlError,
            >(error),
        },
{
    match response {
        TerminalControlResponse::ListTabs(tabs) => Ok(WriteOutcome::TabRows(tab_rows(tabs))),
        TerminalControlResponse::ListPanes(panes) => Ok(WriteOutcome::PaneRows(pane_rows(panes))),
        TerminalControlResponse::CurrentPane(pane) => Ok(
            write_current_pane_to(output, pane, output_format),
        ),
        TerminalControlResponse::ReadPane(snapshot) => Ok(
            write_read_pane_to(output, snapshot, output_format),
        ),
        TerminalControlResponse::CreateTab { pane_id } => match output_format {
            OutputFormat::Json => Ok(
                WriteOutcome::Json { value: JsonValue::CreatedTab(pane_id.clone()), line: false },
            ),
            OutputFormat::Ndjson => Ok(
                WriteOutcome::Json { value: JsonValue::CreatedTab(pane_id.clone()), line: true },
            ),
            OutputFormat::Pretty | OutputFormat::Text => {
                push_line(output, "Pane ID: ", pane_id.as_str());
                Ok(WriteOutcome::Written)
            },
        },
        TerminalControlResponse::FocusPane => Ok(
            write_success_message_to(output, output_format, "Pane focused"),
        ),
        TerminalControlResponse::SendText => Ok(
            write_success_message_to(output, output_format, "Text sent"),
        ),
        TerminalControlResponse::SendKey => Ok(
            write_success_message_to(output, output_format, "Key sent"),
        ),
        TerminalControlResponse::Error(error) => Err(copy_error(error)),
    }
}

/// What the client makes of the service's response: an error response is the
/// error, any other response is the result.
pub fn service_result(response: TerminalControlResponse) -> (r: Result<
    TerminalControlResponse,
    TerminalControlError,
>)
    ensures
        match response {
            TerminalControlResponse::Error(error) => r == Err::<
                TerminalControlResponse,
                TerminalControlError,
            >(error),
            other => r == Ok::<TerminalControlResponse, TerminalControlError>(other),
        },
{
    match response {
        TerminalControlResponse::Error(error) => Err(error),
        other => Ok(other),
    }
}

} // verus!
