# tauri_overlay

The logic of a StarCraft II co-op overlay, written in Verus: settings and their defaults,
hotkey bindings, the replay cache's queries and filters, the games and players pages, the
player summaries, the game launch detector, log formatting and rotation, and the monitor and
window arithmetic. Every function in `src/` carries a contract that Verus proves; the
`law_*` proof functions state the properties that hold across calls.

Layout:

- `src/` — the verified library. Calls into `serde_json`, `chrono`, `rusqlite` and
  `sys-locale` go through small trusted wrappers whose doc comments say what is assumed of
  them.
- `app/` — the program side: files, environment and system queries, the terminal and file
  logger, and the serde form of the settings.
- `tests/` — tests of the library on concrete values.
