use terminal_control::command::{
    command_to_request, PaneTargetArgs, SendKeyArgs, SendKeyToPaneArgs, SendTextArgs,
    SendTextToPaneArgs, TerminalControlCommand,
};
use terminal_control::types::{TerminalControlRequest, TerminalControlTarget};

#[test]
fn terminal_control_send_builds_active_pane_request() {
    assert_eq!(
        command_to_request(TerminalControlCommand::Send(SendTextArgs {
            text: "ls\n".to_string(),
        }))
        .unwrap(),
        TerminalControlRequest::SendText {
            target: TerminalControlTarget::ActivePane,
            text: "ls\n".to_string(),
        }
    );
}

#[test]
fn terminal_control_create_tab_builds_request() {
    assert_eq!(
        command_to_request(TerminalControlCommand::CreateTab).unwrap(),
        TerminalControlRequest::CreateTab
    );
}

#[test]
fn terminal_control_send_pane_builds_explicit_target_request() {
    assert_eq!(
        command_to_request(TerminalControlCommand::SendPane(SendTextToPaneArgs {
            pane_id: "pane-123".to_string(),
            text: "pwd\n".to_string(),
        }))
        .unwrap(),
        TerminalControlRequest::SendText {
            target: TerminalControlTarget::PaneId("pane-123".to_string()),
            text: "pwd\n".to_string(),
        }
    );
}

#[test]
fn command_to_request_maps_other_terminal_control_commands() {
    assert_eq!(
        command_to_request(TerminalControlCommand::ListTabs).unwrap(),
        TerminalControlRequest::ListTabs
    );
    assert_eq!(
        command_to_request(TerminalControlCommand::ListPanes).unwrap(),
        TerminalControlRequest::ListPanes
    );
    assert_eq!(
        command_to_request(TerminalControlCommand::CurrentPane).unwrap(),
        TerminalControlRequest::CurrentPane
    );
    assert_eq!(
        command_to_request(TerminalControlCommand::FocusPane(PaneTargetArgs {
            pane_id: "pane-456".to_string(),
        }))
        .unwrap(),
        TerminalControlRequest::FocusPane {
            target: TerminalControlTarget::PaneId("pane-456".to_string()),
        }
    );
    assert_eq!(
        command_to_request(TerminalControlCommand::SendKey(SendKeyArgs {
            key: "enter".to_string(),
        }))
        .unwrap(),
        TerminalControlRequest::SendKey {
            target: TerminalControlTarget::ActivePane,
            key: "enter".to_string(),
        }
    );
    assert_eq!(
        command_to_request(TerminalControlCommand::SendKeyPane(SendKeyToPaneArgs {
            pane_id: "pane-789".to_string(),
            key: "tab".to_string(),
        }))
        .unwrap(),
        TerminalControlRequest::SendKey {
            target: TerminalControlTarget::PaneId("pane-789".to_string()),
            key: "tab".to_string(),
        }
    );
}

#[test]
fn terminal_control_read_builds_active_pane_request() {
    assert_eq!(
        command_to_request(TerminalControlCommand::Read).unwrap(),
        TerminalControlRequest::ReadPane {
            target: TerminalControlTarget::ActivePane,
        }
    );
}

#[test]
fn terminal_control_read_pane_builds_explicit_target_request() {
    assert_eq!(
        command_to_request(TerminalControlCommand::ReadPane(PaneTargetArgs {
            pane_id: "pane-123".to_string(),
        }))
        .unwrap(),
        TerminalControlRequest::ReadPane {
            target: TerminalControlTarget::PaneId("pane-123".to_string()),
        }
    );
}
