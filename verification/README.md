# Micround

Micround shows a live microscope camera feed as the desktop wallpaper. This
crate holds its decision logic as a library verified with Verus, and the
program around it.

## Layout

- `src/` — the verified library:
  - `app_core/` — errors and their messages, commands and events, the
    application state machine, shortcuts and their parser, latency
    histograms, error injection for tests, crash recovery and logging
    decisions;
  - `capture/` — camera states and their history, format negotiation,
    pixel-format codes, the bounded frame queue, hot-plug detection,
    reconnection backoff, the camera manager and a frame simulator;
  - `config.rs` — the configuration, its defaults and its sanitising;
  - `engine.rs` — the display engine (running, paused, stopped, the frozen
    frame) and `dispatch.rs`, what the main loop does with a command;
  - `platform/` — paths, autostart entries, wallpaper capture and restore
    plans, permissions, displays, windows and system events;
  - `text.rs`, `clock.rs` — string helpers and the clock.
- `app/` — the program: the main loop, channels, logging, the configuration
  file, the desktop's tools, global shortcuts through `global-hotkey`,
  camera devices through `v4l`, and the floating-point latency report.
- `tests/` — tests of the library.

Contracts are stated over `Seq`, `Set` and `Map` views and spec functions;
properties that relate several operations are public proof functions whose
names start with `lemma_`.
