# dv4rune

The decision logic of `dv`, a tool that keeps dotfiles and configuration in
step across the users and devices it manages, written in Verus with its
behaviour stated as contracts and proved.

## Layout

- `src/` — the verified library.
  - `plan.rs`: the task graph: which state nodes each task notifies, how
    many notifications each node waits for, and what a task does with the
    combined outcome it starts with.
  - `schedule.rs`: a plan being run: tasks end one at a time and notify the
    nodes after them; a node fires once it has heard from all of them.
  - `task.rs`: task kinds, their configuration and the status they report.
  - `copy.rs`, `check.rs`, `sync.rs`: what a copy or a synchronisation does
    with a file, given the versions seen on both sides and the versions
    recorded after the last copy.
  - `script.rs`: how a command line or a script is turned into a program to
    start.
  - `interact.rs`: mapping key presses to answers.
  - `package.rs`, `users.rs`, `registry.rs`, `vars.rs`, `cli.rs`, `text.rs`:
    package lists, user and device configuration, the registry of users,
    variables, command-line defaults and string helpers.
- `tests/` — tests on concrete values, run against the compiled library.
- `app/` — the command-line program: argument parsing, the SQLite version
  cache, the terminal, and the file and process work that the library
  decides on.
