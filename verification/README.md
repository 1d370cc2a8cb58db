# tower_builder

The rules of a crane-stacker tower builder, verified with Verus.

A hook swings a floor slab above a plot; the player drops it and it lands on
the tower. A clean drop snaps on at full width and extends the combo, a sloppy
one is trimmed to its overlap, a near-total miss topples the tower and ends the
run. Each slab is one floor of a building from a fixed catalog; reaching the
building's floor count completes it and the next building starts on a new plot.

Layout:

- `src/` — the verified library:
  - `catalog` — the buildings, ordered from fewest to most floors;
  - `game` — the rules: landing, scoring, combo, building progression, game
    over, with the laws that hold of them;
  - `session` — the shell's decisions: keys, clicks and taps, pause, restart,
    and the sounds, overlays, bursts and HUD updates each step calls for;
  - `rng` — the xorshift streams, the clock-to-seed mixer, the skyline hash;
  - `city` — grouping of the map feed into building records;
  - `mesh` — the unit-cube vertex and index tables;
  - `scenery` — the car palette and the spark cap.
- `app/` — the window, the GPU renderer, and the floating-point geometry of the
  build site (hook swing, fall, slab overlap), which call the library for every
  decision.
- `tests/` — tests of the library on concrete values.
