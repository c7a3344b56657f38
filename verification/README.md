# roonscape_renderer

The decisions of the RoonScape renderer, proved with Verus: what a presentation
snapshot shows, how it is laid out on a display, how its metadata is broken into
lines, how it is coloured, how it moves when the display is inactive, and how the
renderer reacts to keys, snapshots and capture requests.

- `src/` is the verified library. Each module states its behaviour as
  `requires`/`ensures` over spec functions, and the properties that relate several
  calls stand as public proof functions (`lemma_*`).
- `tests/` runs the library on concrete values.
- `app/` is the program around it: it reads snapshots from a file or the local
  socket, reads the environment and the display configuration, and prints what
  the library decides.

The renderer's frame-by-frame decisions (which palette, whether to depart,
reveal, install or create the view, whether to capture, whether to keep
animating, and which displayed state and timeline a frame shows) are pure
functions from state and event to next state and action; `app/` performs them.

Layout ratios that a renderer computes in double precision are specified as
exactly that computation, carried out on integers.

Times are whole nanoseconds and opacities are the bit patterns of their double
values, so that every computation in `src/` is integer arithmetic.
Where a figure is itself floating point, such as the frame time shown by the
diagnostics overlay, `app/` formats it and the library places the text.
