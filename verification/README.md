# mc_server

A manager for a Minecraft server: a daemon that owns the server's JVM and a
command-line client that talks to it over a line-based JSON protocol.

The decisions of the manager are a library verified with Verus (`src/`):

- `text` — character-level helpers: white space and trimming, decimal
  notation and `u32` parsing, path joining.
- `process` — the log-line grammar and event classification, the lifecycle
  state machine, the pid file format, and the commands and states of the JVM
  supervisor.
- `types` — the shared lifecycle types and protocol payloads.
- `config` — the configuration and its built-in defaults.
- `daemon` — the wire protocol, the actor's replies and escalations, the wait
  for a target state, orphan recovery and the kill loop, and the TCP front
  end's answers.
- `cli` — the client's arguments, configuration and reading of answers.
- `legacy` — the first-generation supervisor: its configuration file, its
  state machine with save tracking, and its hot-backup script.

Each public function states its result in its `ensures`; the library's laws
(round trips of the log grammar and the pid file, what log lines can and
cannot do to the state, the bounds of the kill loop, the backup script's
restoring of automatic saving, and others) are public proof functions next to
the code they speak of.

`app/` holds what the verifier does not see: `main`, configuration loading,
sockets, processes, timers, serialization and the archive writer. It performs
the I/O and asks the library what to do. `tests/` runs the library on
concrete values.
