//! Sample values of the protocol: a pane summary and a pane snapshot, as the
//! client shows them in its examples.
use vstd::prelude::*;
use crate::types::{PaneSummary, TerminalPaneSnapshot};

verus! {

/// A terminal pane `pane-1` of tab `tab-1` in workspace `workspace-1`,
/// running `zsh` in `/tmp/project`, focused and active.
pub fn sample_pane() -> (pane: PaneSummary)
    ensures
        pane@.pane_id == "pane-1"@,
        pane@.tab_id == "tab-1"@,
        pane@.workspace_id == Some("workspace-1"@),
        pane@.title == "shell"@,
        pane@.cwd == Some("/tmp/project"@),
        pane@.command == Some("zsh"@),
        pane@.focused,
        pane@.active,
        pane@.pane_type == "terminal"@,
{
    PaneSummary {
        pane_id: String::from_str("pane-1"),
        tab_id: String::from_str("tab-1"),
        workspace_id: Some(String::from_str("workspace-1")),
        title: String::from_str("shell"),
        cwd: Some(String::from_str("/tmp/project")),
        command: Some(String::from_str("zsh")),
        focused: true,
        active: true,
        pane_type: String::from_str("terminal"),
    }
}

/// A snapshot of pane `pane-1` after `pwd` in `/tmp/project`, with the cursor
/// at row 12, column 34.
pub fn sample_snapshot() -> (snapshot: TerminalPaneSnapshot)
    ensures
        snapshot@.pane_id == "pane-1"@,
        snapshot@.title == "shell"@,
        snapshot@.cwd == Some("/tmp/project"@),
        snapshot@.focused,
        snapshot@.active,
        snapshot@.content == "$ pwd\n/tmp/project\n"@,
        !snapshot@.truncated,
        snapshot@.cursor_row == Some(12usize),
        snapshot@.cursor_col == Some(34usize),
{
    TerminalPaneSnapshot {
        pane_id: String::from_str("pane-1"),
        title: String::from_str("shell"),
        cwd: Some(String::from_str("/tmp/project")),
        focused: true,
        active: true,
        content: String::from_str("$ pwd\n/tmp/project\n"),
        truncated: false,
        cursor_row: Some(12),
        cursor_col: Some(34),
    }
}

} // verus!
