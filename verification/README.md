# altre

The core of a small Emacs-like text editor, written in Verus: all code under
`src/` is verified, and its public operations carry `requires`/`ensures`
contracts that Verus proves (the one left without, whether a message's
display time has run out, reads the clock).

- `src/buffer/`: the gap buffer (it stores characters; byte offsets into the
  UTF-8 encoding are computed from them),
  cursor, navigation and the base editor with its edit operations.
- `src/editor/`: input buffering, the kill ring and change notification.
- `src/input/`: key bindings, the key map of command names and the command
  processor.
- `src/search/`: incremental search and query-replace.
- `src/minibuffer/`, `src/file/`, `src/alisp/`, `src/gui/`, `src/ui/`: the
  minibuffer, file buffers and paths, the small Lisp's errors and symbols,
  and the data behind the GUI and terminal views.
- `src/text.rs`, `src/time.rs`, `src/cli.rs`: character-sequence utilities,
  clock helpers and launch arguments.
- `src/app/`: the application state and its key handling.
- `app/`: the terminal program around the library (I/O, rendering).
- `tests/`: the test suite, run against the compiled library.

Calls into std and outside crates whose behaviour cannot be proved here sit
behind small trusted wrappers; each one's doc comment says what its contract
claims.
