# PlayBack

PlayBack is a keyboard-first media player built on mpv. This crate holds its
decision logic, each function with its contract and proof, and a thin
program around it.

## Layout

- `src/` — the verified library:
  - `text`, `float`: text helpers and binary64/binary32 values held by their
    bit patterns (comparisons, clamping and validity are decided on the bits;
    arithmetic and decimal rendering of floating-point numbers are the
    caller's).
  - `cli`, `scan`, `reading`, `cli_laws`: the mpv-compatible command line —
    scanning, validation, the typed actions, and laws about them.
  - `state`: playback state and the invariant every operation keeps.
  - `mpv`, `controller`: the mpv invocation for a command line, and the
    backend call and state change for each action.
  - `config`, `config_keys`, `document`: the configuration schema and its
    defaults, Lua evaluation into a configuration document (through
    `mlua`), its key order and `custom` section, and its unknown-key
    warnings. Configuration is data: a chunk with a loop, a function
    definition, a `goto` or a long bracket is refused before it runs, and
    the rest runs with the base and `math` libraries only (without `load`,
    `loadfile`, `dofile`, `print` and `warn`) within 64 KiB of memory, and
    its result is converted only when it expands to fewer than 262144
    values and text bytes, so every evaluation comes back with a document
    or an error.
  - `theme`, `ui_state`, `components`, `views`, `application`: the
    renderer-neutral UI model.
  - `launcher`, `help`: what a command line asks for, the mpv arguments a
    configuration becomes, and the command-line definition.
  - `desktop`: the desktop shell's state and the mpv input commands it sends.
- `app/` — the `playback` program: argument handling, the mpv process,
  file watching, serde forms of the library's types, thread
  channels, and reading floating-point values.
- `tests/` — the tests, run against the library.
