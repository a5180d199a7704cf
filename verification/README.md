# wayr

A Wayland-only windowing toolkit: toplevel windows, layer-shell surfaces,
subsurfaces, fractional scaling, text input (IME), key repeat and a
winit-shaped `ApplicationHandler` event loop.

## Layout

- `src/` — the protocol-independent core, verified with Verus. It decides
  what every protocol event means: the configure handshake and its
  `Resized` / `ScaleFactorChanged` / `RedrawRequested` reporting, scale
  composition over overlapped outputs, pointer / touch / keyboard / IME
  event translation, key repeat, redraw coalescing, run-loop pacing and
  the order of the run loop's callbacks (`src/run_loop.rs`).
  `src/laws.rs` states the properties that span several operations.
- `app/` — the toolkit around the core: the Wayland connection, protocol
  proxies and dispatch, xkbcommon keymaps, the blocking loop and the
  surface handles. It feeds the core plain values and performs the
  requests the core plans.
- `tests/` — tests of the core on concrete inputs.

Scale factors are kept in 1/120 units and pointer / scroll coordinates in
1/256 pixels (the protocols' own fixed-point units); `app/` converts them
to floating point for the application.
