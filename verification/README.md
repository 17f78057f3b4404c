# rustiq

A terminal git diff viewer with syntax highlighting, inline comments on the code
and two colour themes. Pick a baseline (the working tree or a recent commit),
browse the changed files and their diffs, and comment on lines of the new
files. A comment remembers a SHA-256 anchor of the ten lines before it, its
line and the ten after; when that context changes it is shown as stale. A
comment whose file is gone, or has shrunk so that none of the lines around
it are left, turns stale and is exported with an empty context.
Comments are kept in `.rustiq/comments.json`; opening the export view (`V`)
also keeps the export of all comments in `.rustiq/export.txt`.

## Layout

- `src/` — the library, verified with Verus:
  - `domain.rs` files, hunks, diff lines, baselines, comments
  - `diff.rs` assembling a repository diff, merging staged and unstaged changes,
    the baseline list
  - `store.rs` the comment anchor (context window and its hash)
  - `export.rs` the plain-text export of all comments
  - `app.rs`, `comments.rs`, `actions.rs`, `keys.rs` the viewer's state machine:
    navigation, comment editing, staleness, key handling
  - `view.rs` what the screens display (status line, markers, counts)
  - `highlight.rs` syntax highlighting with syntect
  - `text.rs` line splitting, decimal and hex rendering, trimming
  - `theme.rs` the two colour themes
  - `ports.rs` the repository, comment store and highlighter interfaces
  - `laws.rs` properties that hold across operations
- `app/` — the program: git access, the JSON comment file, the clipboard, the
  terminal and the drawing.
- `tests/` — tests of the library.
