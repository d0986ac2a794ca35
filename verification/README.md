# desktop_toolkit

Verified core of a desktop-application toolkit for Tauri tools that update
themselves from a shared drive.

- `src/` — the library, verified with Verus:
  - `version` — semantic versions parsed and ordered by the `semver` crate;
  - `updater` — the update decision on `latest.json`, the pending-update
    state, and the command line handed to the updater shim;
  - `shim` — how the updater shim reads its command line;
  - `splash` — splash status lines and the first-launch-after-update rule;
  - `startup` — startup timing, status lines, backend and Python lookup;
  - `log`, `text` — log-line format, decimal numbers, ASCII case folding.
- `app/` — the runtime around it: file logging, reading the drive, copying
  the installer, Tauri commands and windows, and the shim's process handling.
- `tests/` — tests of the library.
