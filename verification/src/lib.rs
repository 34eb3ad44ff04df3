//! Terminal control: the request/response protocol by which a command line
//! client lists, focuses, reads and writes the terminal panes of a running
//! application, the resolution of pane targets against the application's
//! window/tab/pane state, and the rendering of responses for the client.
pub mod types;
pub mod command;
pub mod service;
pub mod output;
pub mod samples;
pub mod laws;
