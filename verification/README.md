# rtodo

A todo manager for the terminal: tasks organised by projects, local to a
working directory, with subtasks whose completion drives the status of
their parent task. It has a command line (`rtodo project …`, `rtodo task …`)
and a full-screen interface (`rtodo ui`).

The library under `src/` is written in Verus and verified:

- `models/`: projects, tasks and subtasks, and the rules that tie a task's
  status to its subtasks; `workspace.rs`: the projects of one workspace.
- `cli.rs`, `dispatch.rs`: the commands and what each does and reports.
- `ui.rs`, `style.rs`: the lines the command line prints, as inked pieces.
- `tui/`: the interface without the terminal: keys to intents
  (`intent.rs`), intents to effects (`resolve.rs`), effects to state
  changes (`apply.rs`), and what the screen shows (`tree.rs`, `render.rs`,
  `sidebar.rs`).
- `laws.rs`: properties that span several operations.
- `text.rs`, `clock.rs`: decimal numbers, padding and trimming; timestamps
  and their calendar date.

`app/` is the program around it: argument parsing, reading and writing
`.rtodo/state.json`, colours, and the terminal loop.
