# hyprshell

Window switcher, overview and launcher logic for the Hyprland compositor,
verified with Verus.

- `src/` is the verified library. Every executable function carries a
  contract; the laws of the library are public proof functions named
  `law_*`.
  - `release`, `switch`: when the switch overlay commits the selection
    (modifier release evidence, stale answers, cancellations), and what
    each input asks of the caller.
  - `overview`, `capture`, `capture_state`, `data`, `tiles`, `dispatch`:
    the overview's inputs, live thumbnail refreshes and the per-window
    capture state, window filtering and positions, what the switch and each
    monitor's overview show, and focus requests.
  - `launcher` (`applications`, `path`, `web`): launcher entries, ranking
    and the command lines that launches run.
  - `config`, `config_io`, `convert`, `check`, `explain`, `explain_plain`, `migrate`,
    `workarounds`, `workarounds_io`, `sync`, `toml_doc`: the configuration, its file
    format and defaults, validation, the explanation text, migration of
    older formats, and keeping a written file's layout when updating it
    (reading documents through toml_edit into the lists the plan works on, and
    applying the plan to a document).
  - `binds`, `lua`, `transfer`, `runs`, `paths`, `editor`, `text`: key
    bindings, Lua fragments, the messages to the running instance, the
    launch count files, base directories and key texts.
- `app/` holds the I/O around it: reading and writing files, the
  environment, file watches and the compositor's socket.
- `tests/` runs the library on concrete values.
