# zed_fork_logic

The decisions behind a set of editor workflow features, written in Verus and
proved against their contracts:

- `minibuffer`: the bottom panel that hosts transient views, and the focus it
  hands back when they close.
- `exec_command`: running shell commands from the minibuffer — the line
  buffer for a run's output (`output`), a run's status (`run`), the history of
  runs and its picker (`history`), and the modes of the view.
- `git_ui`: magit-style popups for pull, push, rebase, reset and stash (their
  switches, the requests they send, the rows they show), and the branch and
  remote status items.
- `directory_finder`, `open_buffer_finder`, `references_picker`,
  `projectile`: fuzzy pickers over a directory, the open buffers, the
  references to a symbol and the recent projects.
- `command_line`: a vim-style command line in the status bar.
- `picker`, `ui`, `text`: what the pickers share, the colours and rows the
  views draw, and string helpers (trimming, decimal rendering).

Views, windows, processes and fuzzy matching belong to the editor; they sit in
`app/`, which calls the library and hands it plain values (ids for entities
and focus targets, strings, flags) and does what it returns.

`src/` is verified with Verus; `tests/` runs the library on concrete inputs.
