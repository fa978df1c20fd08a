# weaver

A history tracker for shell commands and visited urls, with its core
written in Verus and proved against its contracts.

- `src/` is the verified library:
  - `text` – character-level string helpers (search, prefixes, joining,
    decimal formatting, the lexicographic order) and their laws;
  - `cli`, `config` – the commands a parsed command line asks for;
  - `action_list` – the list view behind the history screen: items, rows,
    focus, key handling and column layout;
  - `display` – the history table (filtering, searching around a row) and
    the event processors of the history screen;
  - `server` – the pure parts of the web pages and api: assets, analyses,
    recommendations, search summaries, paging;
  - `flows`, `controllers`, `store` – flow files, the decisions of the
    command line controllers and the records of the action store.
- `tests/` exercises the library on concrete values.
- `app/` is the `weaver` command: argument parsing with clap, flows on disk,
  the server check, and the cursive view around the action list.
