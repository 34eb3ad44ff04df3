//! The client's commands and the requests they stand for.
use vstd::prelude::*;
use crate::types::{TerminalControlRequest, TerminalControlTarget};

verus! {

/// Declares `anyhow::Error`, the error type of the client's fallible
/// operations, so that signatures can name it; nothing inside a value of it
/// is visible to the proofs.
#[verifier::external_type_specification]
#[verifier::external_body]
pub struct ExAnyhowError(anyhow::Error);

/// The terminal control commands of the command line client.
#[derive(Debug, Clone, PartialEq, Eq)]
pub enum TerminalControlCommand {
    /// Create a new terminal tab and return its initial pane handle.
    CreateTab,
    /// List terminal tabs.
    ListTabs,
    /// List terminal panes and their pane handles.
    ListPanes,
    /// Show the current terminal pane and its pane handle.
    CurrentPane,
    /// Focus a terminal pane by pane handle.
    FocusPane(PaneTargetArgs),
    /// Read a bounded text snapshot from the current pane.
    Read,
    /// Read a bounded text snapshot from a terminal pane by pane handle without changing focus.
    ReadPane(PaneTargetArgs),
    /// Send text to the current pane without changing focus.
    Send(SendTextArgs),
    /// Send text to a terminal pane by pane handle without changing focus.
    SendPane(SendTextToPaneArgs),
    /// Send a key to the current pane without changing focus.
    SendKey(SendKeyArgs),
    /// Send a key to a terminal pane by pane handle without changing focus.
    SendKeyPane(SendKeyToPaneArgs),
}

/// Arguments naming a target pane.
#[derive(Debug, Clone, PartialEq, Eq)]
pub struct PaneTargetArgs {
    /// The target pane handle.
    pub pane_id: String,
}

/// Arguments of a text sent to the current pane.
#[derive(Debug, Clone, PartialEq, Eq)]
pub struct SendTextArgs {
    /// The text to send.
    pub text: String,
}

/// Arguments of a text sent to a named pane.
#[derive(Debug, Clone, PartialEq, Eq)]
pub struct SendTextToPaneArgs {
    /// The target pane handle.
    pub pane_id: String,
    /// The text to send.
    pub text: String,
}

/// Arguments of a key sent to the current pane.
#[derive(Debug, Clone, PartialEq, Eq)]
pub struct SendKeyArgs {
    /// The key to send.
    pub key: String,
}

/// Arguments of a key sent to a named pane.
#[derive(Debug, Clone, PartialEq, Eq)]
pub struct SendKeyToPaneArgs {
    /// The target pane handle.
    pub pane_id: String,
    /// The key to send.
    pub key: String,
}

/// The request that a command stands for: the commands without a pane
/// handle aim at the active pane, those with one at the named pane.
pub open spec fn command_request(command: TerminalControlCommand) -> TerminalControlRequest {
    match command {
        TerminalControlCommand::CreateTab => TerminalControlRequest::CreateTab,
        TerminalControlCommand::ListTabs => TerminalControlRequest::ListTabs,
        TerminalControlCommand::ListPanes => TerminalControlRequest::ListPanes,
        TerminalControlCommand::CurrentPane => TerminalControlRequest::CurrentPane,
        TerminalControlCommand::Read => TerminalControlRequest::ReadPane {
            target: TerminalControlTarget::ActivePane,
        },
        TerminalControlCommand::ReadPane(args) => TerminalControlRequest::ReadPane {
            target: TerminalControlTarget::PaneId(args.pane_id),
        },
        TerminalControlCommand::FocusPane(args) => TerminalControlRequest::FocusPane {
            target: TerminalControlTarget::PaneId(args.pane_id),
        },
        TerminalControlCommand::Send(args) => TerminalControlRequest::SendText {
            target: TerminalControlTarget::ActivePane,
            text: args.text,
        },
        TerminalControlCommand::SendPane(args) => TerminalControlRequest::SendText {
            target: TerminalControlTarget::PaneId(args.pane_id),
            text: args.text,
        },
        TerminalControlCommand::SendKey(args) => TerminalControlRequest::SendKey {
            target: TerminalControlTarget::ActivePane,
            key: args.key,
        },
        TerminalControlCommand::SendKeyPane(args) => TerminalControlRequest::SendKey {
            target: TerminalControlTarget::PaneId(args.pane_id),
            key: args.key,
        },
    }
}

/// Turns a command into the request that it stands for; every command has one.
pub fn command_to_request(command: TerminalControlCommand) -> (r: Result<
    TerminalControlRequest,
    anyhow::Error,
>)
    ensures
        r matches Ok(request) && request == command_request(command),
{
    match command {
        TerminalControlCommand::CreateTab => Ok(TerminalControlRequest::CreateTab),
        TerminalControlCommand::ListTabs => Ok(TerminalControlRequest::ListTabs),
        TerminalControlCommand::ListPanes => Ok(TerminalControlRequest::ListPanes),
        TerminalControlCommand::CurrentPane => Ok(TerminalControlRequest::CurrentPane),
        TerminalControlCommand::Read => Ok(
            TerminalControlRequest::ReadPane { target: TerminalControlTarget::ActivePane },
        ),
        TerminalControlCommand::ReadPane(PaneTargetArgs { pane_id }) => Ok(
            TerminalControlRequest::ReadPane { target: TerminalControlTarget::PaneId(pane_id) },
        ),
        TerminalControlCommand::FocusPane(PaneTargetArgs { pane_id }) => Ok(
            TerminalControlRequest::FocusPane { target: TerminalControlTarget::PaneId(pane_id) },
        ),
        TerminalControlCommand::Send(SendTextArgs { text }) => Ok(
            TerminalControlRequest::SendText { target: TerminalControlTarget::ActivePane, text },
        ),
        TerminalControlCommand::SendPane(SendTextToPaneArgs { pane_id, text }) => Ok(
            TerminalControlRequest::SendText {
                target: TerminalControlTarget::PaneId(pane_id),
                text,
            },
        ),
        TerminalControlCommand::SendKey(SendKeyArgs { key }) => Ok(
            TerminalControlRequest::SendKey { target: TerminalControlTarget::ActivePane, key },
        ),
        TerminalControlCommand::SendKeyPane(SendKeyToPaneArgs { pane_id, key }) => Ok(
            TerminalControlRequest::SendKey {
                target: TerminalControlTarget::PaneId(pane_id),
                key,
            },
        ),
    }
}

} // verus!
