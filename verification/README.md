# cmux_gtk

The model behind the cmux desktop shell for Linux, written in Verus: workspaces,
panes and surfaces, the JSON-RPC socket that drives them, and the text that they
exchange with terminals and web pages.

- `src/` is the library. Every function in it is verified. A request is carried
  out in turns: the library says what it needs from the window (text from a
  terminal, the value of a script), the caller hands the replies back, and the
  library ends with the answer and the new state.
- `src/laws.rs`, `src/soundness.rs`, `src/numbering.rs` and `src/echoes.rs` state
  what holds of all requests: changes make revisions, workspaces stay whole, no
  two workspaces, panes, surfaces or notifications of a session that started from
  nothing have the same id, and one request reads what another one wrote.
- `app/` is the program around the library: the GTK window, the socket, the
  terminals and web views, and the files that are read and written.
- `tests/` runs the library on concrete sessions.

The parts of the library that rest on other code are marked in `src/text.rs`
(strings of the standard library), `src/percent.rs` (reading bytes as text) and
`src/json.rs` (`serde_json`).
