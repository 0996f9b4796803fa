# herdr sidebar readouts

The bookkeeping behind the sidebar of the herdr terminal multiplexer: the
host disk and swap footer, per-pane working time, and the labels and overlay
geometry of agent status. The logic lives in `src/` and is proved with Verus;
`app/` holds what talks to the host (platform sampling, logging), the
floating-point colour work, and drawing with ratatui.

- `src/time.rs` — monotonic readings and spans, in nanoseconds.
- `src/system_resources.rs` — pressure bands, the footer's sampling schedule,
  its refresh marker, and its next wake-up.
- `src/work_timer.rs` — working time per pane, its transitions, its redraw
  deadline, and how it is printed.
- `src/status.rs` — state words, override keys, markers, and where the
  clipboard and notification overlays are drawn.
- `src/app.rs`, `src/agent.rs`, `src/geometry.rs` — the application state the
  readouts live in, detected agent states, and screen rectangles.
