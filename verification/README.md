# sweep-rs

A git-aware cleaner for build artifacts (`target/`, `node_modules/`,
`.venv/`, `bin/`, ...) across twelve ecosystems, whose decisions are proved
with Verus.

## Layout

- `src/` — the verified library.
  - `detectors/` — the built-in detectors, the registry and the type filter;
    `detectors/laws.rs` proves that every built-in target is a whitelisted
    name and that no trash directory is.
  - `sweep_core/` — sizes (cluster rounding, byte formatting), the scan
    engine's decisions (pruning, candidates, the stale filter), the cleaner's
    checks (whitelist, trash paths, the purge report) and the shared types;
    `sweep_core/laws.rs` proves how the stale and type filters narrow a whole
    scan.
  - `git/` — the git status of a project from what its repository reports.
  - `ui/` — the summary table, the dashboard's state machine (`tui.rs`),
    what its panels show (`panels.rs`) and the laws of its key handling
    (`laws.rs`).
  - `paths.rs`, `text.rs` — `/`-separated paths and text helpers, specified
    over `Seq<char>`.
- `tests/` — tests of the library on concrete values.
- `app/` — the program: argument parsing, the directory walk, git and file
  system access, terminal output and the dashboard's drawing.

Run `sweep-rs --help` for the options; `--tui` opens the dashboard.
