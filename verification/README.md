# bmcbl_windows

The window-side logic of a Minecraft Bedrock launcher's desktop windows
(debug tools, package import, `level.dat` editor and the world map viewer),
written in Verus: each function carries a `requires`/`ensures` contract
over plain mathematical values, and Verus proves the code against it.

Layout:

- `src/` — the verified library.
  - `debug_state`, `debug_console`, `debug_memory`, `debug_copy`: frame and
    render timing, inspector history, console filtering, memory attribution
    and the debug windows' text.
  - `import`: routing of opened and dropped files, the import session's
    state machine and its status texts.
  - `level_dat`: the `level.dat` editor session (validation, dirty state,
    save flow).
  - `map_viewer/*`: tile bookkeeping, paint snapshots and their patching,
    invalidation after edits, paste transforms, the two-click edit
    confirmation, editor rows and selection deletes.
  - `text`, `arith`: decimal text, parsing, trimming and saturating
    arithmetic shared by the rest.
- `tests/` — ordinary Rust tests that run the library on concrete values.
- `app/` — the unverified edge: system sampling, file reads, floating-point
  formatting and process-wide state, calling into the library.

Calls into `serde_json`, `sysinfo` and `std::path` go through small
trusted wrappers. The `serde_json` wrapper gives its outcome a name that
depends on the text alone; the `sysinfo` wrappers state nothing, since what
they read depends on the machine and the moment; the path wrapper states
what `Path::extension` gives on every platform: an extension without a
dot that follows a dot in the path, and exactly the last extension of a
bare file name. Everything else in `src/` is proved.
