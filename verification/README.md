# refx-ui

The decisions of the RefX reference board's window, as a library whose
behaviour is stated in `requires`/`ensures` contracts and proved with Verus.

- `src/` — the verified library: keyboard shortcuts and what one key press
  does (`keys`), the accounting of a batch of dropped or pasted images
  (`batch`), finding moved and missing images again (`relink`, `assets`),
  saving, opening and closing a document (`session`), recovering work after
  a crash (`recovery`), deleting and mirroring the selection (`selection`,
  `appearance`), wrapping note text (`notes`), frame-time statistics
  (`stats`), the status-bar texts (`text`), a small random generator (`rng`)
  and wall-clock readings (`clock`).
- `tests/` — tests that run the library on concrete values.
- `app/` — ordinary Rust around the library: converting winit's key events,
  and the floating-point arithmetic of drawing and reports.

Properties that hold of every input are public proof functions whose names
begin with `law_`.
