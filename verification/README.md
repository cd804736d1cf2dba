# libghostty_vt_zed

A verified adapter layer between a Ghostty-style virtual terminal and an
editor front end.

- `src/` is the verified library. The terminal itself is not part of it: what
  the terminal reports (modes, cursor, grid cells, render state contents) is
  handed in as plain values of the types in `src/vt.rs`, and the library turns
  them into the editor-facing shapes (`summary`, `render`, `modes`). It also
  resolves key names (`keys`), holds key and mouse encoder configuration
  (`key_input`, `mouse`), encodes focus reports (`focus`), keeps the queues
  that the terminal's callbacks fill (`callbacks`) and decides where the
  dynamic terminal library is found (`runtime`, comparing paths by their
  components in `paths`).
- `app/` is the glue that talks to the linked terminal library: it reads the
  terminal into the `vt` values, registers the callback handlers, encodes key
  and mouse events with the library's encoders, and probes the file system
  for the dynamic library.
- `tests/` exercises the library on concrete values.
