# qboa_digital

The decision logic of a Windows maintenance utility, verified with Verus.

- `src/task_registry.rs` — the catalogue of tasks, lookup by id, name-ordered listings and presets.
- `src/safety.rs` — the journal of changes with their rollback state, rollback of one change or a whole session through a restorer that the caller supplies, and the table of executions with cancellation and fresh identifiers.
- `src/snapshot.rs` — snapshot types, snapshot strategies, restore validation and the PowerShell commands for restore and restore points.
- `src/engine.rs` — the commands each task runs, the runner that carries out a plan and stops at the first failure, how command outcomes are read, cancel requests, the sequencing of a preset, and the state machine that carries a task from snapshot to settlement.
- `src/laws.rs` — properties of the library as a whole, as proof functions.
- `src/text.rs`, `src/clock.rs`, `src/scripts.rs` — text helpers, clock readings for identifiers, and the PowerShell scripts.
- `app/` — the Tauri shell: commands, processes, files, logs and the serializable copies of the library's types.
