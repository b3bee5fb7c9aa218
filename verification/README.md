# rboard

A clipboard history manager. A monitor thread polls the clipboard once a
second and stores every new non-empty text, keyed by the SHA-256 of its
bytes, in a small SQLite table that keeps the five newest distinct clips. A
tray icon and a borderless window list the clips, copy one back to the
clipboard, or delete it.

- `src/` is the verified library: content hashing (`digest`), the history
  model and its laws (`history`; the laws hold of the model, which the SQL
  statements in `store` are written to follow), the monitor's decisions (`monitor`), tray
  menu and event mapping (`tray`), icon decoding (`icon`), the window's state
  and commands (`ui`), and the storage statements (`store`).
- `app/` is the program: the polling loops, the database, the clipboard, the
  tray icon and the egui window. The icon (`assets/icon.png`) and the font
  (`assets/JetBrainsMono-VariableFont_wght.ttf`) are embedded from an
  `assets` directory beside `Cargo.toml`, which must be supplied to build
  the program; it is not part of this crate.
- `tests/` exercises the library on concrete values.
