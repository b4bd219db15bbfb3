# simple_chat

A single-room chat: a WebSocket server that broadcasts each message to
everyone but its sender and keeps usernames unique, and a command-line client
(`send <MSG>`, `leave`).

- `src/` is the verified library (Verus):
  - `proto` — the client and server messages and their JSON encoding;
  - `json` — JSON string literals as serde_json writes them, and why they
    read back unambiguously;
  - `users` — the registry of usernames in use;
  - `session` — the server's per-connection state machine, with laws over
    whole runs of events;
  - `command` — the client's line editor and command parser;
  - `display` — the text the client prints;
  - `text` — white space, trimming, and the `str`/`String` operations the
    rest relies on.
- `app/` is ordinary Rust around it: the axum server, the terminal client,
  the sockets and tasks, and JSON decoding through serde.
- `tests/` runs the library on concrete values.
