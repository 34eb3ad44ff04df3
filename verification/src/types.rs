//! The protocol types exchanged between the command line client and the
//! application's terminal control service, with their mathematical views.
use vstd::prelude::*;

verus! {

/// The view of an optional string: the characters of the string, if any.
pub open spec fn opt_str_view(o: Option<String>) -> Option<Seq<char>> {
    match o {
        Some(s) => Some(s@),
        None => None,
    }
}

/// Which pane a request is aimed at.
#[derive(Debug, Clone, PartialEq, Eq)]
pub enum TerminalControlTarget {
    /// The pane the user is working in: the focused terminal of the active
    /// tab of the active window, or else that tab's active session.
    ActivePane,
    /// The pane whose handle is the given string.
    PaneId(String),
}

/// A tab as listed to the client.
#[derive(Debug, Clone, PartialEq, Eq)]
pub struct TabSummary {
    pub tab_id: String,
    pub title: String,
    pub active: bool,
}

/// The mathematical view of a [`TabSummary`].
pub struct TabSummaryView {
    pub tab_id: Seq<char>,
    pub title: Seq<char>,
    pub active: bool,
}

impl View for TabSummary {
    type V = TabSummaryView;

    open spec fn view(&self) -> TabSummaryView {
        TabSummaryView { tab_id: self.tab_id@, title: self.title@, active: self.active }
    }
}

/// A terminal pane as listed to the client.
#[derive(Debug, Clone, PartialEq, Eq)]
pub struct PaneSummary {
    pub pane_id: String,
    pub tab_id: String,
    pub workspace_id: Option<String>,
    pub title: String,
    pub cwd: Option<String>,
    pub command: Option<String>,
    pub focused: bool,
    pub active: bool,
    pub pane_type: String,
}

/// The mathematical view of a [`PaneSummary`].
pub struct PaneSummaryView {
    pub pane_id: Seq<char>,
    pub tab_id: Seq<char>,
    pub workspace_id: Option<Seq<char>>,
    pub title: Seq<char>,
    pub cwd: Option<Seq<char>>,
    pub command: Option<Seq<char>>,
    pub focused: bool,
    pub active: bool,
    pub pane_type: Seq<char>,
}

impl View for PaneSummary {
    type V = PaneSummaryView;

    open spec fn view(&self) -> PaneSummaryView {
        PaneSummaryView {
            pane_id: self.pane_id@,
            tab_id: self.tab_id@,
            workspace_id: opt_str_view(self.workspace_id),
            title: self.title@,
            cwd: opt_str_view(self.cwd),
            command: opt_str_view(self.command),
            focused: self.focused,
            active: self.active,
            pane_type: self.pane_type@,
        }
    }
}

/// A bounded text snapshot of a terminal pane's contents.
#[derive(Debug, Clone, PartialEq, Eq)]
pub struct TerminalPaneSnapshot {
    pub pane_id: String,
    pub title: String,
    pub cwd: Option<String>,
    pub focused: bool,
    pub active: bool,
    pub content: String,
    pub truncated: bool,
    pub cursor_row: Option<usize>,
    pub cursor_col: Option<usize>,
}

/// The mathematical view of a [`TerminalPaneSnapshot`].
pub struct TerminalPaneSnapshotView {
    pub pane_id: Seq<char>,
    pub title: Seq<char>,
    pub cwd: Option<Seq<char>>,
    pub focused: bool,
    pub active: bool,
    pub content: Seq<char>,
    pub truncated: bool,
    pub cursor_row: Option<usize>,
    pub cursor_col: Option<usize>,
}

impl View for TerminalPaneSnapshot {
    type V = TerminalPaneSnapshotView;

    open spec fn view(&self) -> TerminalPaneSnapshotView {
        TerminalPaneSnapshotView {
            pane_id: self.pane_id@,
            title: self.title@,
            cwd: opt_str_view(self.cwd),
            focused: self.focused,
            active: self.active,
            content: self.content@,
            truncated: self.truncated,
            cursor_row: self.cursor_row,
            cursor_col: self.cursor_col,
        }
    }
}

/// A request from the client to the service.
#[derive(Debug, Clone, PartialEq, Eq)]
pub enum TerminalControlRequest {
    CreateTab,
    ListTabs,
    ListPanes,
    CurrentPane,
    FocusPane { target: TerminalControlTarget },
    ReadPane { target: TerminalControlTarget },
    SendText { target: TerminalControlTarget, text: String },
    SendKey { target: TerminalControlTarget, key: String },
}

/// Why the service could not carry out a request.
#[derive(Debug, Clone, PartialEq, Eq)]
pub enum TerminalControlError {
    PaneNotFound { pane_id: Option<String> },
    PaneNotTerminal { pane_id: String },
    PaneNotReadable { pane_id: String },
    PaneNotWritable { pane_id: String },
    NoActiveTerminal,
    UnsupportedKey { key: String },
    IpcUnavailable,
}

/// The service's answer to a request.
#[derive(Debug, Clone, PartialEq, Eq)]
pub enum TerminalControlResponse {
    CreateTab { pane_id: String },
    ListTabs(Vec<TabSummary>),
    ListPanes(Vec<PaneSummary>),
    CurrentPane(PaneSummary),
    ReadPane(TerminalPaneSnapshot),
    FocusPane,
    SendText,
    SendKey,
    Error(TerminalControlError),
}

/// The terminal control service: requests are [`TerminalControlRequest`]s and
/// responses are [`TerminalControlResponse`]s.
pub struct TerminalControlService;

/// Returns a copy of `e`, equal to it.
pub fn copy_error(e: &TerminalControlError) -> (r: TerminalControlError)
    ensures
        r == *e,
{
    match e {
        TerminalControlError::PaneNotFound { pane_id } => {
            let pane_id = match pane_id {
                Some(p) => Some(p.clone()),
                None => None,
            };
            TerminalControlError::PaneNotFound { pane_id }
        },
        TerminalControlError::PaneNotTerminal { pane_id } => {
            TerminalControlError::PaneNotTerminal { pane_id: pane_id.clone() }
        },
        TerminalControlError::PaneNotReadable { pane_id } => {
            TerminalControlError::PaneNotReadable { pane_id: pane_id.clone() }
        },
        TerminalControlError::PaneNotWritable { pane_id } => {
            TerminalControlError::PaneNotWritable { pane_id: pane_id.clone() }
        },
        TerminalControlError::NoActiveTerminal => TerminalControlError::NoActiveTerminal,
        TerminalControlError::UnsupportedKey { key } => {
            TerminalControlError::UnsupportedKey { key: key.clone() }
        },
        TerminalControlError::IpcUnavailable => TerminalControlError::IpcUnavailable,
    }
}

/// Returns a copy of an optional string, equal to it.
pub fn copy_opt_string(o: &Option<String>) -> (r: Option<String>)
    ensures
        r == *o,
{
    match o {
        Some(s) => Some(s.clone()),
        None => None,
    }
}

/// Returns a copy of `p`, equal to it.
pub fn copy_pane_summary(p: &PaneSummary) -> (r: PaneSummary)
    ensures
        r == *p,
{
    PaneSummary {
        pane_id: p.pane_id.clone(),
        tab_id: p.tab_id.clone(),
        workspace_id: copy_opt_string(&p.workspace_id),
        title: p.title.clone(),
        cwd: copy_opt_string(&p.cwd),
        command: copy_opt_string(&p.command),
        focused: p.focused,
        active: p.active,
        pane_type: p.pane_type.clone(),
    }
}

/// Returns a copy of `s`, equal to it.
pub fn copy_snapshot(s: &TerminalPaneSnapshot) -> (r: TerminalPaneSnapshot)
    ensures
        r == *s,
{
    TerminalPaneSnapshot {
        pane_id: s.pane_id.clone(),
        title: s.title.clone(),
        cwd: copy_opt_string(&s.cwd),
        focused: s.focused,
        active: s.active,
        content: s.content.clone(),
        truncated: s.truncated,
        cursor_row: s.cursor_row,
        cursor_col: s.cursor_col,
    }
}

} // verus!
