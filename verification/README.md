# SK Music desktop shell

The native shell around the SK Music web player: a tray, media keys, a mini player, deep links,
offline downloads and self-updates.

- `src/` is the `sk_music` library: everything the shell decides and computes, as functions from plain
  values to plain values, verified with Verus. A function's contract fixes what it returns, over what
  the calls into other crates gave; it leaves open the pixels of an icon that was shrunk, and the order
  of songs that were added in the same millisecond. The proof functions whose names begin with `law_`
  state what holds across functions.
- `src/outside.rs` holds the calls into other crates. Their contracts are believed, not proved; each
  says what it claims of which function.
- `app/` is the shell itself, on Tauri: windows, events, network and disk. It hands plain values to the
  library and carries out what the library answers. The playing badge of the tray icon, the mini
  player's geometry and the download percentage are computed there, in floating point. Its build needs
  the app's icon at `icons/128x128.png`.
- `tests/` runs the library with the real crates behind it.
