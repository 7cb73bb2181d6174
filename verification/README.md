# goonto

A desktop "effects" program (popups, notifications, typing, clipboard,
Discord presence, wallpaper) driven by a YAML configuration and an image
source (a local folder, e621.net or rule34.xxx).

- `src/` is the library, verified with Verus: the configuration and its
  defaults, choosing the configuration file, the image sources (random
  picks, the download pool, queries, cache paths, which local files count
  as images), the decisions each effect makes when its timer fires, and the
  program's start-up and exit decisions. `src/laws.rs` states the
  properties that span several operations.
- `app/` is the program around it: YAML parsing, windows and timers,
  network downloads, keyboard and clipboard access, Discord IPC and the
  start-up entry on disk.
- `tests/` exercises the library on concrete values.
