# gpui_anim

Animation control for GPUI elements, with its decision logic verified by Verus.

- `src/` is the verified library: event and priority types (`types`), the
  conflict policies (`policies`), the per-element animation state (`state`),
  the engine that admits requests, starts, advances, finishes, resumes and
  reverts animations (`engine`, over the `dashmap` tables declared in
  `tables`), the rules that turn hovers, clicks and declared conditions into
  requests (`interaction`), the scheduler loop's decisions (`scheduler`), the
  curve types (`transition`) and properties spanning several operations
  (`laws`).
- `app/` is the GPUI side: the element wrapper and its fluent API, the
  floating-point interpolation of styles and the easing curves, the global
  runtime that interns styles and timing curves under the keys the engine
  works with and measures each frame, and the scheduler loop on `smol`.
- `tests/` exercises the library.
