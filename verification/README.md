# lucid_optimizer

Manages game items (each with two options) and base stats, and searches
item combinations for the strongest set.

- `src/` — the verified library (Verus):
  - `item.rs` — option kinds, their Korean names, items, reading stored entries
  - `stats.rs` — base stats and field access by index
  - `text.rs` — reading and writing `i32` values as decimal text
  - `app.rs` — the editor's state machine (`App::apply`) and its model
  - `event.rs` — key presses to actions, per mode
  - `optimizer.rs` — combination enumeration, the critical-rate cap and the
    whole-number totals a combination's strength is built from
  - `layout.rs` — list scrolling, padding names to a column, cursor splitting
  - `screen.rs` — what each part of the screen shows, as styled segments
    (hint line, list title and rows, quit prompt, item composer, popups)
  - `laws.rs` — properties spanning several actions (undo, escape, quit)
- `app/` — the terminal program: JSON files (serde), drawing the
  library's segments (ratatui),
  key events (crossterm), and strength scoring (floating point).
- `tests/` — unit and scenario tests.
