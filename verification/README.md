# TilleRS

A keyboard-first tiling window manager for macOS. Workspaces are switched
with Option-based shortcuts, windows are arranged by tiling patterns, and the
configuration lives in TOML files under `~/.config/tillers`.

## Layout

- `src/` — the library, written in Verus and verified: the models
  (workspaces, tiling patterns, window rules, monitor configurations,
  keyboard mappings, application profiles), the services (workspace manager,
  window manager cache, tiling engine, keyboard handler, orchestrator),
  configuration parsing checks and validation, error recovery (classification,
  backoff, circuit breakers, the retry state machine), permissions, logging
  settings, the system tray state, the command-line outputs and the
  configuration store's naming and backup rules. Calls into `regex`, `uuid`,
  `chrono`, `dirs` and `std` that the library makes go through small trusted
  wrappers whose contracts are stated next to them.
- `app/` — the program around the library: logging setup, files on disk and
  their TOML/JSON forms, command-line parsing, permission probing, the
  background lifecycle, the retry loop's timers, and the floating-point
  screen geometry of the tiling layouts.
- `tests/` — tests of the library.
