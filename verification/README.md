# puzzle

A point-and-click puzzle game. `src/` holds its rules, verified with Verus; `app/` is the
game around them, on the Bevy engine.

- `src/logic/` — the rules: the game state (`state`), the messages it answers (`message`),
  the stack programs an answer is given as (`action`), running such a program against what
  the world holds (`check`), the kinds check that every program the rules give passes
  (`typing`), and what holds of the rules across calls (`laws`).
- `src/puzzle_def.rs`, `src/puzzle.rs` — the description of the puzzle's parts and how each
  part is built from it.
- `src/draggable.rs`, `src/zoomable.rs`, `src/clickable.rs`, `src/utils/debug.rs` — the
  decisions of the interaction and debug plugins.
- `src/text.rs` — text helpers: comparing, prefixes, reading decimal numbers, splitting.

Numbers of the engine (seconds, coordinates) are held in `src/` by their bit patterns; the
arithmetic on them stays in `app/`.
