use terminal_control::service::{
    bound_snapshot, current_pane, handle_request, key_encoded, list_panes, list_tabs, resolve_terminal_target,
    snapshot_read, AppState, PaneLocation, PaneState, ServiceStep, TabState, TerminalState,
    WorkspaceState,
};
use terminal_control::types::{
    TerminalControlError, TerminalControlRequest, TerminalControlResponse, TerminalControlTarget,
};

fn terminal(id: &str) -> PaneState {
    PaneState {
        pane_id: id.to_string(),
        terminal: Some(TerminalState {
            title: None,
            cwd: Some("/tmp".to_string()),
            is_viewer: false,
        }),
    }
}

fn viewer(id: &str) -> PaneState {
    PaneState {
        pane_id: id.to_string(),
        terminal: Some(TerminalState {
            title: Some("shared".to_string()),
            cwd: None,
            is_viewer: true,
        }),
    }
}

fn notebook(id: &str) -> PaneState {
    PaneState {
        pane_id: id.to_string(),
        terminal: None,
    }
}

fn tab(id: &str, panes: Vec<PaneState>, focused: usize, active: Option<usize>) -> TabState {
    TabState {
        tab_id: id.to_string(),
        display_title: format!("{id} title"),
        title: "shell".to_string(),
        panes,
        focused_pane: focused,
        active_session: active,
    }
}

fn workspace(window: &str, tabs: Vec<TabState>, active_tab: usize) -> WorkspaceState {
    WorkspaceState {
        window_id: window.to_string(),
        active_tab,
        tabs,
    }
}

fn loc(workspace: usize, tab: usize, pane: usize) -> PaneLocation {
    PaneLocation {
        workspace,
        tab,
        pane,
    }
}

fn two_terminal_state(active_window: Option<&str>) -> AppState {
    AppState {
        active_window: active_window.map(|w| w.to_string()),
        workspaces: vec![workspace(
            "window-1",
            vec![tab("tab-1", vec![terminal("pane-0"), terminal("pane-1")], 0, Some(0))],
            0,
        )],
    }
}

fn respond(state: &AppState, request: TerminalControlRequest) -> TerminalControlResponse {
    match handle_request(state, request) {
        ServiceStep::Respond(response) => response,
        other => panic!("expected a response, got {other:?}"),
    }
}

#[test]
fn terminal_control_service_list_and_current_pane_requests_need_runtime_impl() {
    let state = AppState {
        active_window: Some("window-1".to_string()),
        workspaces: vec![workspace(
            "window-1",
            vec![
                tab("tab-1", vec![terminal("pane-a")], 0, Some(0)),
                tab(
                    "tab-2",
                    vec![notebook("notebook"), terminal("pane-b"), terminal("pane-c")],
                    0,
                    Some(2),
                ),
            ],
            1,
        )],
    };

    match respond(&state, TerminalControlRequest::ListTabs) {
        TerminalControlResponse::ListTabs(tabs) => assert_eq!(tabs.len(), 2),
        other => panic!("expected tab listing, got {other:?}"),
    }

    match respond(&state, TerminalControlRequest::ListPanes) {
        TerminalControlResponse::ListPanes(panes) => {
            assert_eq!(panes.len(), 3);
            assert!(panes.iter().all(|pane| pane.pane_type == "terminal"));
        }
        other => panic!("expected pane listing, got {other:?}"),
    }

    match respond(&state, TerminalControlRequest::CurrentPane) {
        TerminalControlResponse::CurrentPane(pane) => {
            assert!(pane.active);
            assert_eq!(pane.pane_type, "terminal");
        }
        other => panic!("expected current pane, got {other:?}"),
    }
}

#[test]
fn terminal_control_service_active_pane_requires_an_active_window() {
    let state = two_terminal_state(None);

    let current_pane = respond(&state, TerminalControlRequest::CurrentPane);
    let send_text = respond(
        &state,
        TerminalControlRequest::SendText {
            target: TerminalControlTarget::ActivePane,
            text: "pwd".to_string(),
        },
    );

    assert_eq!(
        current_pane,
        TerminalControlResponse::Error(TerminalControlError::NoActiveTerminal)
    );
    assert_eq!(
        send_text,
        TerminalControlResponse::Error(TerminalControlError::NoActiveTerminal)
    );
}

#[test]
fn terminal_control_service_focus_pane_changes_focus_only_when_requested() {
    let state = two_terminal_state(None);

    let step = handle_request(
        &state,
        TerminalControlRequest::FocusPane {
            target: TerminalControlTarget::PaneId("pane-1".to_string()),
        },
    );

    assert_eq!(
        step,
        ServiceStep::Focus {
            target: loc(0, 0, 1),
            raise_window: false,
        }
    );
    assert_ne!(step, ServiceStep::Focus { target: loc(0, 0, 0), raise_window: false });
}

#[test]
fn terminal_control_service_focus_pane_focuses_target_window() {
    let state = AppState {
        active_window: Some("source".to_string()),
        workspaces: vec![
            workspace("source", vec![tab("tab-s", vec![terminal("pane-s")], 0, Some(0))], 0),
            workspace("target", vec![tab("tab-t", vec![terminal("pane-t")], 0, Some(0))], 0),
        ],
    };

    let step = handle_request(
        &state,
        TerminalControlRequest::FocusPane {
            target: TerminalControlTarget::PaneId("pane-t".to_string()),
        },
    );

    assert_eq!(
        step,
        ServiceStep::Focus {
            target: loc(1, 0, 0),
            raise_window: true,
        }
    );
}

#[test]
fn terminal_control_service_send_requests_write_bytes_without_changing_focus() {
    let state = two_terminal_state(Some("window-1"));

    let send_text = handle_request(
        &state,
        TerminalControlRequest::SendText {
            target: TerminalControlTarget::PaneId("pane-1".to_string()),
            text: "echo hi".to_string(),
        },
    );
    let send_key = handle_request(
        &state,
        TerminalControlRequest::SendKey {
            target: TerminalControlTarget::PaneId("pane-1".to_string()),
            key: "enter".to_string(),
        },
    );

    assert_eq!(
        send_text,
        ServiceStep::Write {
            target: loc(0, 0, 1),
            bytes: b"echo hi".to_vec(),
            reply: TerminalControlResponse::SendText,
        }
    );
    assert_eq!(
        send_key,
        ServiceStep::EncodeKey {
            target: loc(0, 0, 1),
            key: "enter".to_string(),
        }
    );
    assert_eq!(
        key_encoded(loc(0, 0, 1), "enter".to_string(), Some(b"\r".to_vec())),
        ServiceStep::Write {
            target: loc(0, 0, 1),
            bytes: b"\r".to_vec(),
            reply: TerminalControlResponse::SendKey,
        }
    );
}

#[test]
fn terminal_control_service_read_returns_snapshot_for_explicit_pane_without_changing_focus() {
    let state = two_terminal_state(Some("window-1"));

    let step = handle_request(
        &state,
        TerminalControlRequest::ReadPane {
            target: TerminalControlTarget::PaneId("pane-1".to_string()),
        },
    );
    assert_eq!(step, ServiceStep::ReadSnapshot { target: loc(0, 0, 1) });

    match snapshot_read(&state, loc(0, 0, 1), "pwd\n/tmp".to_string(), 1024) {
        TerminalControlResponse::ReadPane(snapshot) => {
            assert_eq!(snapshot.pane_id, "pane-1");
            assert!(!snapshot.focused);
            assert!(!snapshot.active);
            assert_eq!(snapshot.content, "pwd\n/tmp");
            assert!(!snapshot.truncated);
            assert_eq!(snapshot.cursor_row, None);
            assert_eq!(snapshot.cursor_col, None);
        }
        other => panic!("expected pane snapshot, got {other:?}"),
    }
}

#[test]
fn terminal_control_service_returns_typed_target_errors() {
    let state = AppState {
        active_window: None,
        workspaces: vec![workspace(
            "window-1",
            vec![tab("tab-1", vec![notebook("notebook-1"), terminal("pane-0")], 0, Some(1))],
            0,
        )],
    };

    let not_found = respond(
        &state,
        TerminalControlRequest::FocusPane {
            target: TerminalControlTarget::PaneId("missing-pane".to_string()),
        },
    );
    let non_terminal = respond(
        &state,
        TerminalControlRequest::SendText {
            target: TerminalControlTarget::PaneId("notebook-1".to_string()),
            text: "echo nope".to_string(),
        },
    );

    assert_eq!(
        not_found,
        TerminalControlResponse::Error(TerminalControlError::PaneNotFound {
            pane_id: Some("missing-pane".to_string()),
        })
    );
    assert_eq!(
        non_terminal,
        TerminalControlResponse::Error(TerminalControlError::PaneNotTerminal {
            pane_id: "notebook-1".to_string(),
        })
    );
}

#[test]
fn terminal_control_service_returns_non_writable_and_unsupported_key_errors() {
    let state = AppState {
        active_window: Some("viewer-window".to_string()),
        workspaces: vec![
            workspace("viewer-window", vec![tab("tab-v", vec![viewer("viewer-pane")], 0, Some(0))], 0),
            workspace("writable-window", vec![tab("tab-w", vec![terminal("writable-pane")], 0, Some(0))], 0),
        ],
    };

    let not_writable = respond(
        &state,
        TerminalControlRequest::SendText {
            target: TerminalControlTarget::PaneId("viewer-pane".to_string()),
            text: "echo nope".to_string(),
        },
    );
    let encode = handle_request(
        &state,
        TerminalControlRequest::SendKey {
            target: TerminalControlTarget::PaneId("writable-pane".to_string()),
            key: "f13".to_string(),
        },
    );
    let unsupported_key = match encode {
        ServiceStep::EncodeKey { target, key } => match key_encoded(target, key, None) {
            ServiceStep::Respond(response) => response,
            other => panic!("expected a response, got {other:?}"),
        },
        other => panic!("expected key encoding, got {other:?}"),
    };

    assert_eq!(
        not_writable,
        TerminalControlResponse::Error(TerminalControlError::PaneNotWritable {
            pane_id: "viewer-pane".to_string(),
        })
    );
    assert_eq!(
        unsupported_key,
        TerminalControlResponse::Error(TerminalControlError::UnsupportedKey {
            key: "f13".to_string(),
        })
    );
}

#[test]
fn create_tab_request_asks_the_application_for_a_tab() {
    let state = two_terminal_state(Some("window-1"));
    assert_eq!(
        handle_request(&state, TerminalControlRequest::CreateTab),
        ServiceStep::CreateTab
    );
}

#[test]
fn pane_listing_reports_titles_windows_focus_and_activity() {
    let mut titled = terminal("pane-titled");
    if let Some(term) = titled.terminal.as_mut() {
        term.title = Some("vim".to_string());
    }
    let state = AppState {
        active_window: Some("window-2".to_string()),
        workspaces: vec![
            workspace("window-1", vec![tab("tab-1", vec![terminal("pane-a")], 0, Some(0))], 0),
            workspace(
                "window-2",
                vec![
                    tab("tab-2", vec![terminal("pane-b")], 0, Some(0)),
                    tab("tab-3", vec![titled, notebook("nb"), terminal("pane-c")], 1, Some(2)),
                ],
                1,
            ),
        ],
    };
    let panes = list_panes(&state);
    let ids: Vec<&str> = panes.iter().map(|p| p.pane_id.as_str()).collect();
    assert_eq!(ids, vec!["pane-a", "pane-b", "pane-titled", "pane-c"]);
    assert_eq!(panes[0].workspace_id.as_deref(), Some("window-1"));
    assert_eq!(panes[0].title, "shell");
    assert!(panes[0].focused);
    assert!(!panes[0].active);
    assert!(!panes[1].active);
    assert_eq!(panes[2].title, "vim");
    assert_eq!(panes[2].tab_id, "tab-3");
    assert!(!panes[2].focused);
    assert!(!panes[2].active);
    assert!(panes[3].active);
    assert!(!panes[3].focused);
    assert_eq!(panes[3].cwd.as_deref(), Some("/tmp"));
    assert_eq!(panes[3].command, None);

    let tabs = list_tabs(&state);
    let flags: Vec<bool> = tabs.iter().map(|t| t.active).collect();
    assert_eq!(flags, vec![false, false, true]);
    assert_eq!(tabs[2].title, "tab-3 title");

    let current = current_pane(&state).expect("an active pane");
    assert_eq!(current.pane_id, "pane-c");
    assert!(current.active);
}

#[test]
fn named_target_takes_the_first_pane_with_the_handle() {
    let state = AppState {
        active_window: None,
        workspaces: vec![
            workspace("window-1", vec![tab("tab-1", vec![notebook("dup")], 0, None)], 0),
            workspace("window-2", vec![tab("tab-2", vec![terminal("dup")], 0, Some(0))], 0),
        ],
    };
    assert_eq!(
        resolve_terminal_target(&state, &TerminalControlTarget::PaneId("dup".to_string())),
        Err(TerminalControlError::PaneNotTerminal {
            pane_id: "dup".to_string()
        })
    );
}

#[test]
fn active_pane_falls_back_to_the_active_session() {
    let mut state = AppState {
        active_window: Some("window-1".to_string()),
        workspaces: vec![workspace(
            "window-1",
            vec![tab("tab-1", vec![notebook("nb"), terminal("pane-1")], 0, Some(1))],
            0,
        )],
    };
    assert_eq!(
        resolve_terminal_target(&state, &TerminalControlTarget::ActivePane),
        Ok(loc(0, 0, 1))
    );
    state.workspaces[0].tabs[0].active_session = None;
    assert_eq!(
        resolve_terminal_target(&state, &TerminalControlTarget::ActivePane),
        Err(TerminalControlError::NoActiveTerminal)
    );
    assert_eq!(current_pane(&state), None);
}

#[test]
fn focusing_a_pane_of_the_active_window_does_not_raise_it() {
    let state = two_terminal_state(Some("window-1"));
    assert_eq!(
        handle_request(
            &state,
            TerminalControlRequest::FocusPane {
                target: TerminalControlTarget::ActivePane
            }
        ),
        ServiceStep::Focus {
            target: loc(0, 0, 0),
            raise_window: false
        }
    );
}

#[test]
fn viewer_panes_can_be_read_but_not_written() {
    let state = AppState {
        active_window: Some("window-1".to_string()),
        workspaces: vec![workspace("window-1", vec![tab("tab-1", vec![viewer("v")], 0, Some(0))], 0)],
    };
    assert_eq!(
        handle_request(
            &state,
            TerminalControlRequest::ReadPane {
                target: TerminalControlTarget::ActivePane
            }
        ),
        ServiceStep::ReadSnapshot { target: loc(0, 0, 0) }
    );
    assert_eq!(
        respond(
            &state,
            TerminalControlRequest::SendKey {
                target: TerminalControlTarget::ActivePane,
                key: "enter".to_string()
            }
        ),
        TerminalControlResponse::Error(TerminalControlError::PaneNotWritable {
            pane_id: "v".to_string()
        })
    );
    match snapshot_read(&state, loc(0, 0, 0), "abcdef".to_string(), 3) {
        TerminalControlResponse::ReadPane(snapshot) => {
            assert_eq!(snapshot.title, "shared");
            assert!(snapshot.focused);
            assert!(snapshot.active);
            assert!(snapshot.truncated);
            assert_eq!(snapshot.content, "def");
            assert_eq!(snapshot.cwd, None);
        }
        other => panic!("expected pane snapshot, got {other:?}"),
    }
}

#[test]
fn service_address_names_the_channel() {
    assert_eq!(
        terminal_control::service::terminal_control_service_address("Dev"),
        "WarpDev_TERMINAL_CONTROL"
    );
}

#[test]
fn terminal_control_service_read_marks_truncated_when_snapshot_is_bounded() {
    let state = two_terminal_state(Some("window-1"));
    let oversized_output = "0123456789abcdef".repeat(80);
    let full = format!("printf oversized\n{oversized_output}");

    let step = handle_request(
        &state,
        TerminalControlRequest::ReadPane {
            target: TerminalControlTarget::PaneId("pane-0".to_string()),
        },
    );
    let target = match step {
        ServiceStep::ReadSnapshot { target } => target,
        other => panic!("expected a snapshot step, got {other:?}"),
    };

    match snapshot_read(&state, target, full.clone(), 1024) {
        TerminalControlResponse::ReadPane(snapshot) => {
            assert_eq!(snapshot.pane_id, "pane-0");
            assert!(snapshot.truncated);
            assert!(snapshot.content.ends_with("89abcdef"));
            assert!(snapshot.content.len() < format!("printf oversized\n{oversized_output}").len());
            assert_eq!(snapshot.cursor_row, None);
            assert_eq!(snapshot.cursor_col, None);
        }
        other => panic!("expected pane snapshot, got {other:?}"),
    }
}

#[test]
fn bound_snapshot_keeps_the_tail_by_characters() {
    assert_eq!(bound_snapshot("héllo wörld".to_string(), 5), ("wörld".to_string(), true));
    assert_eq!(bound_snapshot("short".to_string(), 5), ("short".to_string(), false));
    assert_eq!(bound_snapshot(String::new(), 0), (String::new(), false));
    assert_eq!(bound_snapshot("ab".to_string(), 0), (String::new(), true));
}
