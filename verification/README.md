# miku-overlay

An animated sprite overlay that sits at the top-right corner of the Helium
browser window in a Sway session.

- `src/` is the verified library: the search of the Sway layout tree for the
  browser window (`tree`), the decisions taken on Sway events (`tracker`), the
  overlay's sprite size, margins and visibility (`overlay`), the sprite's
  decoding and colour keying (`sprite`), its frame-by-frame animation
  (`animation`), and proofs of how the overlay follows the window
  (`behaviour`).
- `app/` is the GTK4 / layer-shell program around it: the window, the GObject
  paintable, the Sway IPC connection and event threads, and the float formula
  of the partial-alpha ramp.
- `tests/` runs the library on concrete values, including hand-built APNG
  images.
