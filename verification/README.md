# evan-tui

A terminal field guide with two views: a grid of colour-coded guide sections with
their entries, and a "sanctuary" of programs with their records. Keys move the
selection (h/j/k/l or arrows), Tab switches views, and `:` opens a command palette
(`view field-guide`, `view sanctuary`; Ctrl-U clears the input).

- `src/` is the verified library: the data model, the navigation state of both
  views, key handling and commands, and the decisions the screen is drawn from.
  Each public function states in its contract the state it produces; `src/laws.rs`
  states the properties that relate several operations.
- `app/` is the terminal program around it: reading the TOML/JSON data, turning
  terminal key events into the library's key type, and drawing with ratatui.
- `tests/` runs the library on concrete states.
