# FindApps

A universal application manager for Linux: it detects the applications
installed through APT, DNF, Flatpak, Snap, AppImage files and manual desktop
entries, shows them in one list, and removes them safely.

## Layout

- `src/` — the library, verified with Verus: the parsers of each package
  manager's output, the desktop-entry rules, the normalisation of a scan
  (icon lookup, system classification, de-duplication across backends),
  the repository and its search, package id validation and the removal
  commands, the interface catalog in seven languages, and size formatting.
  Each public function that computes something states it in its `ensures`
  (the constructors of field-less backends and the lookup of the home
  directory, which depends on the environment, have nothing to state); the
  laws that
  relate several functions (what a read gives back after a write, what the
  de-duplication keeps, the safety of removal commands, ...) are public
  proof functions.
- `tests/` — tests of the library on concrete values.
- `app/` — the program around the library: running the package managers,
  reading files and directories, configuration and logging, and the
  GTK4/libadwaita interface.

Verify the library with `verus` on `src/lib.rs` (crate type `lib`).
