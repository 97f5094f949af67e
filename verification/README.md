# wayland_desktop

A desktop backend for Wayland sessions: it takes pictures of the screen, lists
windows and delivers input, on compositors that do not let a client activate a
window.

- `src/` is the library. It holds every decision, with contracts that Verus
  proves: which means of capture comes next, which part of a picture shows a
  window, which windows two sources list together, when input is connected and
  where it goes. It starts no program and opens no connection.
- `app/` runs the helper programs (`grim`, `wtype`, `niri`) and asks the
  services of the desktop, as the library decides.
- `tests/` runs the library on concrete values.

The library calls two outside crates: `serde_json` reads the window report of
niri (`src/json.rs`), and `image` decodes and crops pictures (`src/raster.rs`).
`image` is held to 0.25.9: from 0.25.10 on, what `image::load_from_memory`
returns depends on hooks that a process registers, and no longer on the bytes
alone.
