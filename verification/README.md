# user_notification

Notification payloads that Codex hands to a user-configured program.

- `src/json.rs` — compact JSON text (objects, arrays, members); strings are
  quoted by `serde_json`.
- `src/protocol.rs`, `src/changes.rs`, `src/event.rs` — the values a payload
  carries, each with its JSON text; `ChangeSet` keeps one change per path.
- `src/legacy.rs` — the legacy notify payload and the notify names of events.
- `src/hook.rs` — the notify hook: which program it starts for a payload.
- `src/notifier.rs` — the user notifier and its notification payloads.
- `src/properties.rs` — properties relating these parts.
- `app/lib.rs` — starts the programs the library decides on.
