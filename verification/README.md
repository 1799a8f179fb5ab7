# fv

A terminal file manager whose decisions are proved with Verus.

- `src/` is the verified library: the file list and its cursor, sorting and
  search, the tree, the bookmark list, the prompt line and its completion,
  the side panels, the history of visited directories, the tabs, the
  permission editor, the planning of file jobs (destinations, entry names,
  checkpoints, progress), and what every key and every action does to the
  application's state. Work that only the disk, the terminal or another
  thread can do is handed to the caller as plain values (`AppEffect`,
  `PromptEffect`, `FileJob`) or taken in through closures.
- `app/` is the program around it: the terminal loop, drawing, reading and
  writing files, running jobs on threads, and saving bookmarks, settings and
  history as JSON.
- `tests/` runs the library on concrete values.
