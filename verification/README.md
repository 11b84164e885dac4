# bloom_rust

The logic of a Nord-themed terminal cherry-blossom screensaver, verified
with Verus, and the terminal program around it.

- `src/` is the verified library: command-line settings (`config`),
  keyboard controls (`controls`), the calendar season (`calendar`), the
  ground profile with its grass and puddles (`terrain`), the tree's
  geometry and perches (`tree`), its colouring and colour cache
  (`shading`), the palette (`palette`), the scene's colour and glyph
  tables (`scene`), the discrete side of the particle simulation
  (`physics`), star placement (`stars`), weather bookkeeping and text
  and the cache a fetch updates (`weather`), layout and status text
  (`layout`), art parsing (`art`) and small string helpers (`text`).
- `app/` is the program: argument parsing with clap, the crossterm /
  ratatui terminal, network weather lookups, and the floating-point
  animation (wind, tumbling, gradients), which calls the library for
  every discrete decision. The built-in tree drawing is the text constant
  `DEFAULT_ART_DATA` in `app/art.rs`; `src/art.rs` turns that text (or a
  file given with `--art`) into the character grid the rest works on.
- `tests/` exercises the library on concrete values.
