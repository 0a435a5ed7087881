# hackmap

The decision logic of a Diablo II 1.13c map hack, written in Verus with
its behaviour stated as contracts and proved.

- `src/consts.rs`: the game's colour codes, item qualities, unit kinds, UI
  variable slots, fonts and monster flag bits.
- `src/text.rs`: number formatting, UTF-16 decoding and the few string
  helpers the rest builds on.
- `src/d2api/`: the address tables of the game modules (each entry is the
  module's load address plus a fixed offset), the set-once holder they live
  in, the D2GS packet handler table, UI variable snapshots, window message
  fields, and the D2Sigma item-name and item-property buffers.
- `src/hackmap/`: the configuration and its value parsers (0/1 switches,
  colour codes, quality names, monster ids), the item colour rules, the
  automap markers and labels, the boss table, the game tweaks, the key
  handlers, the belt refill bot and the chat answer.
- `tests/`: tests on concrete values, run against the compiled library.
- `app/`: what the library leaves to its host: reading the configuration
  file with serde and toml, the clock, the floating-point life percentage,
  and running the actions the library returns.

The game hooks, the memory patching and the calls into the game's DLLs
are not part of this crate.
