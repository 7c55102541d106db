# nanites

A task-orchestration substrate: work is described as typed task structs, run
by an async runtime, with every spawned task tracked in a live frontier and
logged in an execution graph that can be checkpointed and restored.

## Layout

- `src/` — the library, verified with Verus. It holds the decisions and the
  data structures: the frontier (`frontier.rs`), the execution graph
  (`exec_graph.rs`), the step-by-step bookkeeping of a spawned task
  (`lifecycle.rs`), the decisions of the `MapTask`, `Refine` and `Retry`
  combinators (`combinators.rs`), checkpoint capture and restore
  (`checkpoint.rs`), the task registry and task snapshots (`registry.rs`),
  chat prompt assembly (`chat.rs`), model-completion tasks
  (`completion.rs`), error messages (`error.rs`), and the JSON functions
  the library calls into `serde_json` through (`json.rs`).
- `app/` — the async runtime around the library: the `Task` trait,
  type-erased tasks, the tokio-driven `Runtime` and `Ctx`, executors,
  scaffolds, result caches, and the serde forms of the library's storable
  types.
- `tests/` — tests of the library.
