# nztool_oar

A macro and hotkey helper for a Windows game, with its decision logic verified by Verus.

- `src/` is the verified library:
  - `text.rs`: character-level string helpers (number parsing as `str::parse` does it,
    trimming, a stable sort by lower-case form).
  - `features.rs`: the bindable keys, bindings and features, with their names and
    the round trips between names and values.
  - `state.rs`: the shared input state, the settings, saving and loading them, the
    preset list and the monitor placement.
  - `worker.rs`: each macro as a list of input steps, and message packing.
  - `hooks.rs`: what the input hooks and the helper threads decide on each event.
  - `ui.rs`: the window's decisions (picking a binding, the feature rows) and the
    layout of release notes.
  - `update.rs`: version comparison and the update state.
  - `icon.rs`: decoding the window icon.
- `app/` is the program around it: the Windows hooks, input sending, threads, files,
  network and the window itself.
- `tests/` runs the library on concrete values.
