# apple_music_tui

The verified core of a terminal client for Apple Music: the domain model, the
application state and its reducer, library views, local search and grouping,
backend command scheduling, the Music.app scripts and session decisions, command
line parsing, configuration validation and the `doctor` checks.

## Layout

- `src/` is the library, written in Verus. Every executable function carries a
  `requires`/`ensures` contract that Verus proves. Calls into std and serde_json
  whose results the library names stand behind small trusted wrappers, each
  documented where it is declared (`text.rs`, `script.rs`, `session.rs`,
  `local_library.rs`, `action.rs`).
- `tests/` holds ordinary Rust tests of the library.
- `app/` is the program around the library: argument dispatch, configuration
  files, the Music.app probe through `osascript`, the `doctor` run and a
  line-oriented console over the mock backend.
