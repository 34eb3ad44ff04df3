# terminal_control

Terminal control lets a command line client list the tabs and terminal panes
of a running application, show the current pane, focus a pane, read a bounded
snapshot of a pane, and send text or keys to a pane without changing focus.

- `src/types.rs`: the request, response and error types of the protocol and
  their views.
- `src/command.rs`: the client's commands and the request each stands for.
- `src/service.rs`: the application's window/tab/pane state as plain values;
  the resolution of pane targets; the tab and pane listings; and, for each
  request, the step the application takes (respond, focus, write, encode a
  key, read a snapshot, create a tab).
- `src/output.rs`: the client's error messages and the text it prints for
  each response; JSON and tables are left to the caller.
- `src/samples.rs`: sample protocol values.
- `src/laws.rs`: properties that hold for every state and request.
- `app/`: argument parsing, JSON, table rendering, and the loop that carries
  out the service's steps against the application.
