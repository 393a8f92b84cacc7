# clipper

A keyboard-driven web clipper and bookmark manager for the terminal: clips of
web pages live in SQLite with full-text search, carry tags, and export to JSON,
CSV or a standalone HTML page.

The library under `src/` is verified with Verus:

- `db` — the clip store on SQLite (`sql` holds the statements and the model of
  the `clips` and `clip_tags` tables that the calls into `rusqlite` are stated
  over); `store_laws` — what the store's operations promise together. The
  store's contracts hold of a *whole* store: one with this library's schema
  that only this connection writes, with foreign keys on. `Database::in_memory`
  makes one, and that is proved. Of a file opened with `Database::open` the
  library proves only that the store is on that file with foreign keys on;
  that the file has this schema and that no other process writes it while it
  is open is an assumption about the environment, which nothing here checks.
- `tags`, `text`, `query`, `clock` — tag lists, text primitives, search texts,
  RFC 3339 dates through `chrono`.
- `fetcher` — a clip made from a url (`url`) and its HTML page (`scraper`).
- `export` — CSV through the `csv` crate and the HTML page.
- `cli`, `commands`, `config` — the command line's values and what the
  commands decide.
- `tui` — the terminal UI's state, what each key does, and its texts.

`app/` is the program around it: argument parsing (`clap`), directories
(`dirs`), HTTP (`reqwest`), JSON (`serde_json`), tables (`comfy-table`), the
browser (`open`) and the terminal (`ratatui`).
