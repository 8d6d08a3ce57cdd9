# codex_wt

Create clean, Codex-style Git worktrees: a detached checkout under
`$CODEX_HOME/worktrees/<id>/<repo-name>`, with the source checkout's tracked
changes and untracked files carried over only on request.

The library (`src/`) holds the decisions and the text processing, verified with
Verus. It does no I/O itself: `create`, `list` and `inspect` are state machines
that ask their caller for one piece of outside work at a time (run Git, create
a directory, query a path, copy a file) and take back what came of it. `doctor`
takes what the caller found out about the machine and builds the report.

- `create`, `list`, `inspect`: the operations, each with its step function as
  a spec function, and the laws that every step keeps.
- `effects`: the outside work, the reports, and how a Git run is read.
- `worktrees`: reading `git worktree list --porcelain`.
- `slug`, `naming`: worktree ids and the search for a free worktree path.
- `untracked`: checking Git's list of untracked files and placing their copies.
- `path`: a model of Unix paths (`Path::components`, `join`, `file_name`,
  `parent`).
- `setup`: the Codex home, `PATH` lookups and `doctor`.
- `report`, `error`: what the tool prints.
- `text`: characters, trimming, numbers, and the few std functions relied on.

`app/` is the `codex-wt` command: argument handling, the Git and file-system
work that the state machines ask for, and JSON output.
