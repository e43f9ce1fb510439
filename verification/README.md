# octos_tui

The decision-making core of a terminal client for the Octos UI protocol
(JSON-RPC 2.0 over a WebSocket or a child process's standard streams),
written in Verus: every function in `src/` carries a contract, and Verus
proves all of them except a few trusted wrappers around outside calls
(`unicode-width`, `shlex`, and std's `String::push`, `str::to_lowercase`,
`String::from_utf8_lossy` and `{:?}` formatting). Each wrapper only makes
its call, and its doc comment says what its contract assumes about that
call.

## Layout

- `src/protocol.rs`, `src/connection.rs`, `src/transport.rs`,
  `src/readonly.rs`, `src/cursors.rs`, `src/results.rs`: frame validation
  and decoding, request tracking, connection status, endpoints, the method
  each request is sent as and the read-only request policy, session
  cursors for reconnects, the routing of successful answers and the status
  lines and events built from protocol results.
- `src/model/`: the client state — composer editing and drafts, session
  navigation and run state, the activity log and per-turn activity,
  prompts awaiting the server's echo, panes (artifacts, workspace, git,
  diff preview, task output) and how snapshots fill them, per-session
  catalogs and the autonomy mirror (agents, goals, loops), onboarding,
  provider configuration, plans.
- `src/sanitize.rs`, `src/terminal_probe.rs`, `src/theme.rs`,
  `src/viewport.rs`, `src/cell_diff.rs`: terminal text, colours, the
  inline viewport and frame flushing.
- `src/profiles.rs`: where local profiles live and which files are
  profiles.
- `app/`: ordinary Rust around the library — the tokio transports, the
  `serde` decoding of typed results (copies of the library's result types
  with the derive), the terminal probe on `/dev/tty`, directory listing,
  and the `crossterm` renderer.
- `tests/`: tests of the library through its public interface.

Laws that span several operations (a draft saved and loaded back, a
backspace undoing a keystroke, a dropped connection reported once, an idle
frame writing nothing) are stated as `law_*` proof functions next to the
operations they relate.
