# Mermaduckle

An AI agent orchestration platform: workflows of nodes (triggers, agents,
conditions, approvals, swarms, loops, HTTP calls, delays, data transforms)
run against a local Ollama model server, under governance rules (rate
limits, content checks), behind a REST API with API keys hashed by Argon2.

## Layout

- `src/` — the verified library (Verus).
  - `engine/` — the workflow model and the execution engine, written as a
    state machine: `Execution::start`, `advance` and `resume` decide each
    step and name the outside work it needs (`Request`); `laws.rs` states
    what every step keeps.
  - `governance.rs` — rate limits per key, content length and content filter,
    policy evaluation, with the laws of the rate limit.
  - `server/` — what the server decides between reading a request or the
    database and answering: registration and sign-in, API key matching,
    identifiers, run records, prompts and the node a fix is asked for,
    imports, settings, webhooks (and the run a Slack action names), health,
    seed data.
  - `sdk.rs` — the REST client's addresses and the meaning of a run answer.
  - `text.rs`, `strmap.rs`, `json.rs`, `casemap.rs`, `clock.rs` — text
    functions with their specifications, a string-keyed map, and the calls
    into `serde_json`, std's case mapping and the system clock.
- `app/` — the program around the library: the Actix-web server, the SQLite
  database, the scheduler, the model and HTTP calls that the engine asks
  for, and the command-line client. Run with a subcommand (`workflows`,
  `agents`, `run <id>`), the binary is the client; without one, it serves.
- `tests/` — tests of the library.
