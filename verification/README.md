# todo_dag

A verified todo list whose items can depend on each other, with the tools by
which agents work on it.

- `src/` is the library. `model.rs` says what each operation makes of a list,
  `list.rs` does it, `laws.rs` states what holds across operations. `graph.rs`
  looks for cycles, `status.rs` reads and writes statuses, `json.rs` reads,
  builds and writes JSON. `checklist.rs` and `dag_tools.rs` are the tools.
- `app/` puts the tools behind the lock of a shared list and serializes
  snapshots.
- `tests/` runs the library.

Besides what Verus knows of the standard library, the proofs rest
on the contracts of the calls into other crates in `clock.rs`, `json.rs`
and `tool.rs`, and of two functions of `str` in `text.rs`.
