# dev-purge

A developer-workspace cleanup tool: it finds build outputs, dependency
folders and caches (`target/`, `node_modules/`, `__pycache__/`, …), shows
what can be recovered, and deletes it on confirmation, while refusing to
touch version control, editor settings, secrets and system directories.

The library in `src/` holds every decision of the tool, verified with
Verus against its contracts:

- `domain/` — tiers, artifact patterns (`patterns`, `config`), protection
  rules per platform (`os`, `registry`), the safety check of the scan root
  (`safety`), sizes of directories (`size`), the reduction of overlapping
  results (`reduce`), Docker results (`docker`), the default scanner,
  checker and cleaner decisions (`impls`) and deletion tallies (`delete`).
- `flow` — the run as a state machine, with the proof that nothing is
  cleaned without a passed safety check, findings, confirmation (or
  `--yes`) and, in aggressive mode, consent.
- `quick/` — the decisions of the simpler `dev-purge [--check]` flow with
  its fixed patterns; `app/quick.rs` drives it, while the binary's `main`
  runs the full command.
- `ui/` — sizes in human units, the preview layout, prompt answers.
- `path`, `order`, `sort`, `text` — paths as components, their order,
  stable sorting and string helpers.

`app/` is the program around it: the command line (clap), the walk of the
disk (walkdir, rayon), Docker (bollard, tokio), the trash bin (trash) and
the terminal output (colored).
