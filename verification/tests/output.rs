use terminal_control::output::{
    format_error, service_result, write_response_to, JsonValue, OutputFormat,
    TerminalControlListPaneRow, TerminalControlListTabRow, WriteOutcome,
};
use terminal_control::samples::{sample_pane, sample_snapshot};
use terminal_control::types::{TabSummary, TerminalControlError, TerminalControlResponse};

#[test]
fn terminal_control_read_pretty_output_includes_metadata_and_raw_content() {
    let mut output = String::new();

    write_response_to(
        &mut output,
        &TerminalControlResponse::ReadPane(sample_snapshot()),
        OutputFormat::Pretty,
    )
    .unwrap();

    assert_eq!(
        output,
        "Pane ID: pane-1\nTitle: shell\nCwd: /tmp/project\nFocused: true\nActive: true\nTruncated: false\nCursor Row: 12\nCursor Col: 34\n\n$ pwd\n/tmp/project\n"
    );
}

#[test]
fn terminal_control_read_text_output_uses_header_section_then_content() {
    let mut output = String::new();

    write_response_to(
        &mut output,
        &TerminalControlResponse::ReadPane(sample_snapshot()),
        OutputFormat::Text,
    )
    .unwrap();

    assert_eq!(
        output,
        "Pane ID: pane-1\nTitle: shell\nCwd: /tmp/project\nFocused: true\nActive: true\nTruncated: false\nCursor Row: 12\nCursor Col: 34\n\n$ pwd\n/tmp/project\n"
    );
}

#[test]
fn write_response_to_formats_create_tab_pretty() {
    let mut output = String::new();

    write_response_to(
        &mut output,
        &TerminalControlResponse::CreateTab {
            pane_id: "pane-1".to_string(),
        },
        OutputFormat::Pretty,
    )
    .unwrap();

    assert_eq!(output, "Pane ID: pane-1\n");
}

#[test]
fn write_response_to_formats_current_pane_pretty() {
    let mut output = String::new();

    write_response_to(
        &mut output,
        &TerminalControlResponse::CurrentPane(sample_pane()),
        OutputFormat::Pretty,
    )
    .unwrap();

    assert_eq!(
        output,
        "Pane ID: pane-1\nTab ID: tab-1\nWorkspace ID: workspace-1\nTitle: shell\nCwd: /tmp/project\nCommand: zsh\nFocused: true\nActive: true\nPane type: terminal\n"
    );
}

#[test]
fn write_response_to_formats_success_messages_for_default_output() {
    let mut output = String::new();

    write_response_to(
        &mut output,
        &TerminalControlResponse::SendText,
        OutputFormat::Pretty,
    )
    .unwrap();

    assert_eq!(output, "Text sent\n");
}

#[test]
fn format_error_returns_concise_cli_messages() {
    assert_eq!(
        format_error(&TerminalControlError::PaneNotFound {
            pane_id: Some("pane-404".to_string()),
        }),
        "Pane not found: pane-404"
    );
    assert_eq!(
        format_error(&TerminalControlError::PaneNotTerminal {
            pane_id: "pane-123".to_string(),
        }),
        "Pane is not a terminal: pane-123"
    );
    assert_eq!(
        format_error(&TerminalControlError::PaneNotWritable {
            pane_id: "pane-123".to_string(),
        }),
        "Pane is not writable: pane-123"
    );
    assert_eq!(
        format_error(&TerminalControlError::NoActiveTerminal),
        "No active terminal"
    );
    assert_eq!(
        format_error(&TerminalControlError::UnsupportedKey {
            key: "f13".to_string(),
        }),
        "Unsupported key: f13"
    );
    assert_eq!(
        format_error(&TerminalControlError::IpcUnavailable),
        "Warp app is not available"
    );
}

#[test]
fn format_error_names_the_other_errors() {
    assert_eq!(
        format_error(&TerminalControlError::PaneNotFound { pane_id: None }),
        "Pane not found"
    );
    assert_eq!(
        format_error(&TerminalControlError::PaneNotReadable {
            pane_id: "pane-9".to_string(),
        }),
        "Pane is not readable: pane-9"
    );
}

#[test]
fn write_current_pane_text_output_is_tab_separated() {
    let mut output = String::new();
    write_response_to(
        &mut output,
        &TerminalControlResponse::CurrentPane(sample_pane()),
        OutputFormat::Text,
    )
    .unwrap();
    assert_eq!(
        output,
        "Pane ID\tTab ID\tWorkspace ID\tTitle\tCwd\tCommand\tFocused\tActive\tPane type\npane-1\ttab-1\tworkspace-1\tshell\t/tmp/project\tzsh\ttrue\ttrue\tterminal\n"
    );
}

#[test]
fn write_snapshot_without_cursor_or_cwd_leaves_values_empty() {
    let mut snapshot = sample_snapshot();
    snapshot.cwd = None;
    snapshot.cursor_row = None;
    snapshot.cursor_col = Some(0);
    snapshot.truncated = true;
    let mut output = String::new();
    write_response_to(
        &mut output,
        &TerminalControlResponse::ReadPane(snapshot),
        OutputFormat::Pretty,
    )
    .unwrap();
    assert_eq!(
        output,
        "Pane ID: pane-1\nTitle: shell\nCwd: \nFocused: true\nActive: true\nTruncated: true\nCursor Row: \nCursor Col: 0\n\n$ pwd\n/tmp/project\n"
    );
}

#[test]
fn write_response_to_leaves_json_to_the_caller() {
    let mut output = String::from("before");
    let outcome = write_response_to(
        &mut output,
        &TerminalControlResponse::CurrentPane(sample_pane()),
        OutputFormat::Json,
    )
    .unwrap();
    assert_eq!(output, "before");
    assert_eq!(
        outcome,
        WriteOutcome::Json {
            value: JsonValue::Pane(sample_pane()),
            line: false
        }
    );
    let outcome = write_response_to(
        &mut output,
        &TerminalControlResponse::SendKey,
        OutputFormat::Ndjson,
    )
    .unwrap();
    assert_eq!(
        outcome,
        WriteOutcome::Json {
            value: JsonValue::Message("Key sent".to_string()),
            line: true
        }
    );
    assert_eq!(output, "before");
}

#[test]
fn write_response_to_messages_for_focus_and_key() {
    let mut output = String::new();
    write_response_to(&mut output, &TerminalControlResponse::FocusPane, OutputFormat::Text)
        .unwrap();
    write_response_to(&mut output, &TerminalControlResponse::SendKey, OutputFormat::Pretty)
        .unwrap();
    assert_eq!(output, "Pane focused\nKey sent\n");
}

#[test]
fn write_response_to_hands_back_errors() {
    let mut output = String::new();
    let result = write_response_to(
        &mut output,
        &TerminalControlResponse::Error(TerminalControlError::NoActiveTerminal),
        OutputFormat::Pretty,
    );
    assert_eq!(result, Err(TerminalControlError::NoActiveTerminal));
    assert_eq!(output, "");
}

#[test]
fn write_response_to_formats_list_tabs_as_rows() {
    let mut output = String::new();
    let outcome = write_response_to(
        &mut output,
        &TerminalControlResponse::ListTabs(vec![TabSummary {
            tab_id: "tab-1".to_string(),
            title: "shell".to_string(),
            active: true,
        }]),
        OutputFormat::Pretty,
    )
    .unwrap();
    let rows = match outcome {
        WriteOutcome::TabRows(rows) => rows,
        other => panic!("expected tab rows, got {other:?}"),
    };
    assert_eq!(rows.len(), 1);
    assert_eq!(
        TerminalControlListTabRow::header(),
        vec!["Tab ID".to_string(), "Title".to_string(), "Active".to_string()]
    );
    assert_eq!(
        rows[0].row(),
        vec!["tab-1".to_string(), "shell".to_string(), "true".to_string()]
    );
    assert_eq!(output, "");
}

#[test]
fn list_pane_rows_show_missing_values_as_empty_cells() {
    let mut pane = sample_pane();
    pane.cwd = None;
    pane.command = None;
    pane.focused = false;
    let row = TerminalControlListPaneRow::from(pane);
    assert_eq!(
        row.row(),
        vec![
            "pane-1".to_string(),
            "tab-1".to_string(),
            "workspace-1".to_string(),
            "shell".to_string(),
            String::new(),
            String::new(),
            "false".to_string(),
            "true".to_string(),
            "terminal".to_string(),
        ]
    );
    assert_eq!(TerminalControlListPaneRow::header().len(), 9);
}

#[test]
fn service_result_separates_errors() {
    assert_eq!(
        service_result(TerminalControlResponse::Error(
            TerminalControlError::IpcUnavailable
        )),
        Err(TerminalControlError::IpcUnavailable)
    );
    assert_eq!(
        service_result(TerminalControlResponse::SendText),
        Ok(TerminalControlResponse::SendText)
    );
}

#[test]
fn cursor_numbers_are_written_in_decimal() {
    let mut snapshot = sample_snapshot();
    snapshot.cursor_row = Some(1_234_567_890);
    snapshot.cursor_col = Some(10);
    snapshot.content = String::new();
    let mut output = String::new();
    write_response_to(
        &mut output,
        &TerminalControlResponse::ReadPane(snapshot),
        OutputFormat::Text,
    )
    .unwrap();
    assert!(output.contains("Cursor Row: 1234567890\n"));
    assert!(output.ends_with("Cursor Col: 10\n\n"));
}

#[test]
fn format_error_gives_each_error_its_own_message() {
    let errors = vec![
        TerminalControlError::PaneNotFound { pane_id: Some("a".to_string()) },
        TerminalControlError::PaneNotFound { pane_id: Some("b".to_string()) },
        TerminalControlError::PaneNotFound { pane_id: None },
        TerminalControlError::PaneNotTerminal { pane_id: "a".to_string() },
        TerminalControlError::PaneNotReadable { pane_id: "a".to_string() },
        TerminalControlError::PaneNotWritable { pane_id: "a".to_string() },
        TerminalControlError::NoActiveTerminal,
        TerminalControlError::UnsupportedKey { key: "a".to_string() },
        TerminalControlError::IpcUnavailable,
    ];
    for (i, a) in errors.iter().enumerate() {
        for (j, b) in errors.iter().enumerate() {
            assert_eq!(i == j, format_error(a) == format_error(b));
        }
    }
}
