# vela_kernel

The kernel of an assistant system: durable sessions, tasks, one-shot schedules,
fixed-interval recurrences, workflow runs and tool invocations, each kept as an
append-only event stream and replayed into its current state.

The decisions are a Verus library, proved against contracts stated over
mathematical models of each type:

- `src/` — the verified library. Every stream family has a spec-level `apply`
  step, a projection of a whole history, plans that decide the next event (or
  the refusal) from the projected state, and read-after-write lemmas showing
  that an appended planned event is reloaded as the planned state. Payload
  schemas, stream names, listing orders, due-occurrence selection and the text
  of every error are specified and proved too.
- `tests/` — tests of the library on concrete values.
- `app/` — the plumbing around it: SQLite through `rusqlite`, JSON payloads
  through `serde_json`, the stores that run the library's plans against the
  log, and the tool and authorizer traits that users implement.

What is not here: the provider/tool turn runtime (task turns, continuations,
transcript staleness, skill selection for a turn). Its checks are written over
session turns, turn roles and contents, a transcript-guarded append and a skill
selection type, none of which the session and skill modules define, so the
runtime cannot be built as given. The parts of it that do not depend on those
types are in `src/runtime.rs`: the dispatch of one provider answer
(`tool_step_action`) and the checks on the task before a turn
(`check_turn_task`). The batches that persist or materialize due occurrences
are planned in `src/due_batch.rs` and only encoded and appended in `app/`.
