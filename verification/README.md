# folden

Folden handles directories: a background service watches registered
directories and runs a pipeline of actions (move the file to a directory, run
a command) on the files that file-system events name. The `folden` client
registers pipelines, starts, stops, modifies and traces handlers.

## Layout

- `src/` is the library, verified with Verus:
  - `daemon/` holds the service's decisions: the mapping of handled
    directories and its invariant (no directory registered twice), the
    answers to register, status, start, stop, modify and trace requests, the
    configuration and its adjustment from the command line, the startup plan,
    and `laws.rs`, the properties that span these operations.
  - `pipelines/` holds what a handler decides: which events and file names
    run the pipeline, how far a run goes through its actions, the move
    action as a state machine from file-system answers to requests, and how a
    command is launched and judged.
  - `client/` builds the client's requests and its plain-text output.
  - `archive_join.rs` is the archive-join handler, which reports the files
    created since a date.
  - `std_bindings.rs`, `patterns.rs` and `watch_channel.rs` hold the trusted
    contracts of the standard library, `regex`, `chrono`, `notify` and
    `crossbeam` operations the library calls.
- `app/` is the program around the library: command lines, files, the
  handler threads that watch directories and perform the actions, and the
  connection between client and service (one JSON request per TCP
  connection on the configured local port).
- `tests/` exercises the library on concrete values.

Run the service with `folden service --config <file> run`, and the client
with `folden <subcommand>`.
