# eventfold_es

An event-sourcing framework for a gRPC event store, with its core proved
correct by Verus.

- `src/` is the verified library: stream identity and event metadata, the
  encoding and decoding of events, the wire requests sent to the server, the
  command execution machine with optimistic concurrency and bounded retries,
  the folds of projections and process managers over the global log, the
  dispatch pass for process manager commands, and the local cache layout.
  Calls into `serde_json`, `uuid`, `tonic`, `std::io` and `std::path` go
  through small trusted functions whose contracts are stated in `json.rs`,
  `ids.rs`, `status.rs` and `paths.rs`.
- `app/` runs the library: the actor tasks, the client over an event store
  transport, the cache files, and the `serde` forms of the library's types.
- `tests/` exercises the library on concrete values.
