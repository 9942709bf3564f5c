# slashmem

A local memory store for AI agents, backed by SQLite: an episodic event log,
a searchable working memory, and procedural rules whose confidence grows with
successes, shrinks four times as fast with failures, and decays with time.

## Layout

- `src/` — the verified library (Verus).
  - `error.rs`, `exit_codes.rs` — the error type, its exit codes, machine-readable
    codes and hints.
  - `format.rs`, `output.rs`, `text.rs` — output settings, command results and
    their human-readable forms, decimal/hex rendering.
  - `confidence.rs` — the integer side of the confidence model (weighted base,
    elapsed time, anti-pattern rule, timestamp reading).
  - `schema.rs`, `db/` — the SQLite schema and migrations, the three memory
    layers, and where the database lives.
  - `db/sql.rs` — the SQLite calls. A `Db` holds the connection and a ghost
    log of every exchange made on it (statement, parameters, what came back,
    or that the call failed); only these calls add to it. The contracts of
    the layers above state how each function grows the log: on success by
    exactly its statements, on failure only by the statements it may run (for
    writes, its planned statements up to the one that failed).
  - `ingest.rs`, `context.rs`, `distill.rs` — the `ingest` and `context`
    commands, and the counts that `distill` reports.
  - `cli.rs` — the commands and their arguments.
- `app/` — the `sm` program: command-line parsing (clap), environment and file
  system access, floating-point confidence, JSON output (serde).
- `tests/` — tests of the library, run against real SQLite databases in memory.
