# flovyn_sdk

The Flovyn SDK for durable workflows and tasks, with its logic verified by
Verus.

## Layout

- `src/` — the verified library.
  - `workflow/` — replay events, workflow commands, the workflow context
    (deterministic replay of operations, tasks, timers, promises, state and
    child workflows, with determinism checking, in waiting and in
    future-returning forms for parallel execution), workflow outcomes, the
    combinators that join, select and time out work, and the laws of replay
    (`workflow/laws.rs`).
  - `task/` — task metadata and registry, the executor's decisions (lookup,
    timeouts, error classes, outcome, retry), stream event types, log levels.
  - `worker/` — workflow registry, lifecycle types, consent of lifecycle
    hooks, pausing and resuming, the closing of a workflow task, what a task
    worker reports, the decisions of the workers' polling loops (start,
    pause, reconnection),
    and the commands in the form the server receives them.
  - `client/` — start options, workflow hooks' levels and messages, client
    settings, which workers a starting client runs, worker registration,
    the task execution service's messages, workflow queries, and waiting
    for a workflow to finish.
  - `testing/` — a controllable clock, mock workflow and task contexts,
    builders of test scenarios, an in-memory test environment, and checks
    for tests.
  - `telemetry.rs` — execution spans and their collector.
  - `common/` — UUID text, semantic versions, string maps, decimal text,
    durations and readings of the system clock.
- `tests/` — tests of the library.
- `app/` — what runs outside the verified library: async glue, `Future`
  adapters, the workers' polling loops and rounds, the client's calls over a
  transport the caller supplies, hooks that log with `tracing`, serde forms of
  library types, and the parts that use floating point.

Outside crates are called from `src/` only through small trusted items
whose contracts say what the library relies on: `uuid` (text, version-4 and
version-5 UUIDs, parsing), `serde_json` (reading objects, quoting strings,
comparing and printing JSON), `std::time` (the clock),
`rand`/`rand_chacha` (seeded random numbers).
