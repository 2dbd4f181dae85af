# uzumaki

The editing, selection, event-routing and plugin-policy logic of the Uzumaki
desktop UI runtime, written in Verus and verified.

- `src/` is the library. Every function states what it does in `requires` /
  `ensures`, and the laws the runtime relies on are public proof functions
  (their names begin with `law_`).
- `tests/` runs the library on concrete inputs.
- `app/` is the plain Rust around it: winit key and mouse conversion, the
  window's event path, hit testing, configuration files and the command-line
  front end.

Rendering (wgpu, vello), layout (taffy) and the JavaScript runtime (Deno) are
not part of this crate.
