# osquery_rs_sdk

A library for osquery extensions: tables, writable tables and configuration
that a process of its own offers to osquery. What the library does is stated in
contracts and proved by Verus.

- `src/` is the library: the plugins and what they answer (`plugin`), the
  registry and the extension manager server (`server`), the client's side of
  the protocol (`client`), mocks for tests (`mock`), and what they stand on
  (`text`, `text_map`, `number`, `json`, `row`, `error`).
- `tests/` runs it.
- `app/` is what touches the outside: sockets and pipes, threads, signals and
  the wire protocol.

JSON is read and quoted by `serde_json`, behind the few functions of
`src/json.rs` whose contracts are trusted; the channel for shutdown signals is
that of the standard library, behind those of `src/server/manager.rs`.
Everything else in `src/` is proved.
