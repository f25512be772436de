# zellijess

A terminal browser for Zellij sessions, tabs and panes, with a verified core.

- `src/` is the library, written in Verus: the parsers of the Zellij CLI listings, the
  command classification of the runtime discovery, the navigation tree with filtering and
  node resolution, the pane preview state machine, the key handling of the browser, and the
  text the panels show. Each function states its behaviour in `requires`/`ensures`; where
  an outside crate computes part of a result (JSON parsing, ANSI parsing, key events), or a
  caller-implemented trait does (the command runner, the snapshot loader), the contract states
  it over a named result of that crate or over the trait's own specification. The laws that
  relate several functions are proof functions named `law_*`.
- `app/` is the program around it: argument handling, child processes for the Zellij CLI,
  the background thread of the live preview, and drawing with `ratatui`.
- `tests/` exercises the library on concrete inputs, including the demo listings in
  `src/tui/demo_data.rs`.

Run `zellijess demo` for the browser over the demo listings, and `zellijess status` to probe
the read-only discovery commands.
